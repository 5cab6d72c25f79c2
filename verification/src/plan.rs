//! One conversion request and its plan: every scratch path, output path and
//! external-tool command the pipeline may need, each pinned to a spec
//! function of the request.

use vstd::prelude::*;

use crate::frame_rate::{ratio_spec, FrameRate};
use crate::process::{args_views, cmd_matches, CommandSpec};
use crate::text::{concat2, file_name_of, file_name_spec, join_path, join_path_spec, stem_of, stem_spec};

verus! {

/// One file to convert, with the options that govern its pipeline run.
/// Immutable once a run starts.
pub struct ConversionRequest {
    /// Full path of the input container file.
    pub input_path: String,
    /// Directory that receives the converted outputs.
    pub output_directory: String,
    /// Directory that receives the scratch artifacts of the run.
    pub scratch_directory: String,
    /// Whether the optional subtitle branch is attempted.
    pub include_subtitles: bool,
    /// Frame rate handed to the multiplexer.
    pub frame_rate: FrameRate,
}

/// The file-name component of the input path.
pub open spec fn input_file_name(req: ConversionRequest) -> Seq<char> {
    file_name_spec(req.input_path@)
}

/// The stem of the input file: the base of every derived file name.
pub open spec fn input_stem(req: ConversionRequest) -> Seq<char> {
    stem_spec(file_name_spec(req.input_path@))
}

/// A request is plannable only when the input path ends in a file name.
pub open spec fn has_valid_stem(req: ConversionRequest) -> bool {
    file_name_spec(req.input_path@).len() > 0
}

/// Scratch path of the raw video elementary stream.
pub open spec fn video_path_spec(req: ConversionRequest) -> Seq<char> {
    join_path_spec(req.scratch_directory@, input_stem(req) + "_DV.hevc"@)
}

/// Scratch path of the extracted audio stream.
pub open spec fn audio_path_spec(req: ConversionRequest) -> Seq<char> {
    join_path_spec(req.scratch_directory@, input_stem(req) + "_audio.ec3"@)
}

/// Scratch path of the extracted subtitle stream.
pub open spec fn subs_path_spec(req: ConversionRequest) -> Seq<char> {
    join_path_spec(req.scratch_directory@, input_stem(req) + "_subs.srt"@)
}

/// Scratch path of the converted subtitle container.
pub open spec fn subs_mp4_path_spec(req: ConversionRequest) -> Seq<char> {
    join_path_spec(req.scratch_directory@, input_stem(req) + "_subs.mp4"@)
}

/// Path of the primary converted output.
pub open spec fn primary_path_spec(req: ConversionRequest) -> Seq<char> {
    join_path_spec(req.output_directory@, input_stem(req) + "_dvh1.mp4"@)
}

/// Path of the output that carries merged subtitles.
pub open spec fn with_subs_path_spec(req: ConversionRequest) -> Seq<char> {
    join_path_spec(req.output_directory@, input_stem(req) + "_dvh1_with_subs.mp4"@)
}

/// Arguments of the demuxer call extracting track 0 of the input.
pub open spec fn extract_video_args(req: ConversionRequest) -> Seq<Seq<char>> {
    seq!["tracks"@, req.input_path@, "0:"@ + video_path_spec(req)]
}

/// Arguments of the transcoder call copying the first audio stream.
pub open spec fn extract_audio_args(req: ConversionRequest) -> Seq<Seq<char>> {
    seq!["-i"@, req.input_path@, "-map"@, "0:a:0"@, "-c"@, "copy"@, audio_path_spec(req), "-y"@]
}

/// Arguments of the transcoder call copying the first subtitle stream.
pub open spec fn extract_subs_args(req: ConversionRequest) -> Seq<Seq<char>> {
    seq!["-i"@, req.input_path@, "-map"@, "0:s:0"@, "-c"@, "copy"@, subs_path_spec(req), "-y"@]
}

/// Arguments of the multiplexer call producing the primary output.
pub open spec fn multiplex_args(req: ConversionRequest) -> Seq<Seq<char>> {
    seq![
        "-o"@,
        primary_path_spec(req),
        "-i"@,
        video_path_spec(req),
        "--input-video-frame-rate"@,
        ratio_spec(req.frame_rate),
        "-i"@,
        audio_path_spec(req),
        "--dv-profile"@,
        "5"@,
        "--dvh1flag"@,
        "0"@,
    ]
}

/// Arguments of the subtitle format-conversion call.
pub open spec fn convert_subs_args(req: ConversionRequest) -> Seq<Seq<char>> {
    seq!["-i"@, subs_path_spec(req), "-c:s"@, "mov_text"@, subs_mp4_path_spec(req), "-y"@]
}

/// Arguments of the subtitle-merge call producing the second output.
pub open spec fn merge_subs_args(req: ConversionRequest) -> Seq<Seq<char>> {
    seq![
        "-add"@,
        primary_path_spec(req),
        "-add"@,
        subs_mp4_path_spec(req),
        "-new"@,
        with_subs_path_spec(req),
    ]
}

/// Every path and command one pipeline run may need.
pub struct ItemPlan {
    pub file_name: String,
    pub video_path: String,
    pub audio_path: String,
    pub subs_path: String,
    pub subs_mp4_path: String,
    pub primary_path: String,
    pub with_subs_path: String,
    pub extract_video: CommandSpec,
    pub extract_audio: CommandSpec,
    pub extract_subs: CommandSpec,
    pub multiplex: CommandSpec,
    pub convert_subs: CommandSpec,
    pub merge_subs: CommandSpec,
}

/// The plan holds exactly the paths and commands that the request calls for.
pub open spec fn plan_matches(p: ItemPlan, req: ConversionRequest) -> bool {
    &&& p.file_name@ == input_file_name(req)
    &&& p.video_path@ == video_path_spec(req)
    &&& p.audio_path@ == audio_path_spec(req)
    &&& p.subs_path@ == subs_path_spec(req)
    &&& p.subs_mp4_path@ == subs_mp4_path_spec(req)
    &&& p.primary_path@ == primary_path_spec(req)
    &&& p.with_subs_path@ == with_subs_path_spec(req)
    &&& cmd_matches(p.extract_video, "mkvextract"@, extract_video_args(req))
    &&& cmd_matches(p.extract_audio, "ffmpeg"@, extract_audio_args(req))
    &&& cmd_matches(p.extract_subs, "ffmpeg"@, extract_subs_args(req))
    &&& cmd_matches(p.multiplex, "mp4muxer"@, multiplex_args(req))
    &&& cmd_matches(p.convert_subs, "ffmpeg"@, convert_subs_args(req))
    &&& cmd_matches(p.merge_subs, "MP4Box"@, merge_subs_args(req))
}

/// Pushes one argument, keeping track of the views.
fn push_arg(v: &mut Vec<String>, s: String)
    ensures
        args_views(final(v)@) == args_views(old(v)@).push(s@),
{
    let ghost sv = s@;
    v.push(s);
    proof {
        assert(args_views(v@) =~= args_views(old(v)@).push(sv));
    }
}

/// Pushes one literal argument.
fn push_lit(v: &mut Vec<String>, s: &str)
    ensures
        args_views(final(v)@) == args_views(old(v)@).push(s@),
{
    push_arg(v, s.to_owned());
}

/// Builds the plan of a request, or reports the request unplannable because
/// its input path names no file.
pub fn build_plan(req: &ConversionRequest) -> (r: Option<ItemPlan>)
    ensures
        match r {
            Some(p) => has_valid_stem(*req) && plan_matches(p, *req),
            None => !has_valid_stem(*req),
        },
{
    let file_name = file_name_of(req.input_path.as_str());
    if file_name.as_str().is_empty() {
        return None;
    }
    let stem = stem_of(file_name.as_str());
    let video_path = join_path(
        req.scratch_directory.as_str(),
        concat2(stem.as_str(), "_DV.hevc").as_str(),
    );
    let audio_path = join_path(
        req.scratch_directory.as_str(),
        concat2(stem.as_str(), "_audio.ec3").as_str(),
    );
    let subs_path = join_path(
        req.scratch_directory.as_str(),
        concat2(stem.as_str(), "_subs.srt").as_str(),
    );
    let subs_mp4_path = join_path(
        req.scratch_directory.as_str(),
        concat2(stem.as_str(), "_subs.mp4").as_str(),
    );
    let primary_path = join_path(
        req.output_directory.as_str(),
        concat2(stem.as_str(), "_dvh1.mp4").as_str(),
    );
    let with_subs_path = join_path(
        req.output_directory.as_str(),
        concat2(stem.as_str(), "_dvh1_with_subs.mp4").as_str(),
    );

    let mut ev_args: Vec<String> = Vec::new();
    push_lit(&mut ev_args, "tracks");
    push_arg(&mut ev_args, req.input_path.clone());
    push_arg(&mut ev_args, concat2("0:", video_path.as_str()));
    proof {
        assert(args_views(ev_args@) =~= extract_video_args(*req));
    }
    let extract_video = CommandSpec { name: "mkvextract".to_owned(), args: ev_args };

    let mut ea_args: Vec<String> = Vec::new();
    push_lit(&mut ea_args, "-i");
    push_arg(&mut ea_args, req.input_path.clone());
    push_lit(&mut ea_args, "-map");
    push_lit(&mut ea_args, "0:a:0");
    push_lit(&mut ea_args, "-c");
    push_lit(&mut ea_args, "copy");
    push_arg(&mut ea_args, audio_path.clone());
    push_lit(&mut ea_args, "-y");
    proof {
        assert(args_views(ea_args@) =~= extract_audio_args(*req));
    }
    let extract_audio = CommandSpec { name: "ffmpeg".to_owned(), args: ea_args };

    let mut es_args: Vec<String> = Vec::new();
    push_lit(&mut es_args, "-i");
    push_arg(&mut es_args, req.input_path.clone());
    push_lit(&mut es_args, "-map");
    push_lit(&mut es_args, "0:s:0");
    push_lit(&mut es_args, "-c");
    push_lit(&mut es_args, "copy");
    push_arg(&mut es_args, subs_path.clone());
    push_lit(&mut es_args, "-y");
    proof {
        assert(args_views(es_args@) =~= extract_subs_args(*req));
    }
    let extract_subs = CommandSpec { name: "ffmpeg".to_owned(), args: es_args };

    let mut mx_args: Vec<String> = Vec::new();
    push_lit(&mut mx_args, "-o");
    push_arg(&mut mx_args, primary_path.clone());
    push_lit(&mut mx_args, "-i");
    push_arg(&mut mx_args, video_path.clone());
    push_lit(&mut mx_args, "--input-video-frame-rate");
    push_lit(&mut mx_args, req.frame_rate.to_value());
    push_lit(&mut mx_args, "-i");
    push_arg(&mut mx_args, audio_path.clone());
    push_lit(&mut mx_args, "--dv-profile");
    push_lit(&mut mx_args, "5");
    push_lit(&mut mx_args, "--dvh1flag");
    push_lit(&mut mx_args, "0");
    proof {
        assert(args_views(mx_args@) =~= multiplex_args(*req));
    }
    let multiplex = CommandSpec { name: "mp4muxer".to_owned(), args: mx_args };

    let mut cv_args: Vec<String> = Vec::new();
    push_lit(&mut cv_args, "-i");
    push_arg(&mut cv_args, subs_path.clone());
    push_lit(&mut cv_args, "-c:s");
    push_lit(&mut cv_args, "mov_text");
    push_arg(&mut cv_args, subs_mp4_path.clone());
    push_lit(&mut cv_args, "-y");
    proof {
        assert(args_views(cv_args@) =~= convert_subs_args(*req));
    }
    let convert_subs = CommandSpec { name: "ffmpeg".to_owned(), args: cv_args };

    let mut mg_args: Vec<String> = Vec::new();
    push_lit(&mut mg_args, "-add");
    push_arg(&mut mg_args, primary_path.clone());
    push_lit(&mut mg_args, "-add");
    push_arg(&mut mg_args, subs_mp4_path.clone());
    push_lit(&mut mg_args, "-new");
    push_arg(&mut mg_args, with_subs_path.clone());
    proof {
        assert(args_views(mg_args@) =~= merge_subs_args(*req));
    }
    let merge_subs = CommandSpec { name: "MP4Box".to_owned(), args: mg_args };

    Some(
        ItemPlan {
            file_name,
            video_path,
            audio_path,
            subs_path,
            subs_mp4_path,
            primary_path,
            with_subs_path,
            extract_video,
            extract_audio,
            extract_subs,
            multiplex,
            convert_subs,
            merge_subs,
        },
    )
}

} // verus!
