//! The closed set of frame rates the converter accepts, each with a fixed
//! display string and a fixed numeric-ratio string handed verbatim to the
//! multiplexer.

use vstd::prelude::*;

verus! {

/// One of the six supported frame rates. No free-form rate is representable.
#[derive(Clone, Copy, Debug, PartialEq, Eq, Structural)]
pub enum FrameRate {
    Film23976,
    Film24,
    Tv29970,
    Tv25,
    Hfr60,
    Hfr59940,
}

/// The canonical ratio string of a frame rate, as the multiplexer takes it.
pub open spec fn ratio_spec(f: FrameRate) -> Seq<char> {
    match f {
        FrameRate::Film23976 => "24000/1001"@,
        FrameRate::Film24 => "24"@,
        FrameRate::Tv29970 => "30000/1001"@,
        FrameRate::Tv25 => "25"@,
        FrameRate::Hfr60 => "60"@,
        FrameRate::Hfr59940 => "60000/1001"@,
    }
}

/// The canonical display string of a frame rate.
pub open spec fn display_spec(f: FrameRate) -> Seq<char> {
    match f {
        FrameRate::Film23976 => "23.976 (24000/1001)"@,
        FrameRate::Film24 => "24.000 (24)"@,
        FrameRate::Tv29970 => "29.970 (30000/1001)"@,
        FrameRate::Tv25 => "25.000 (25)"@,
        FrameRate::Hfr60 => "60.000 (60)"@,
        FrameRate::Hfr59940 => "59.940 (60000/1001)"@,
    }
}

impl FrameRate {
    /// The display string shown to a user.
    pub fn to_string(&self) -> (r: &'static str)
        ensures
            r@ == display_spec(*self),
    {
        match self {
            FrameRate::Film23976 => "23.976 (24000/1001)",
            FrameRate::Film24 => "24.000 (24)",
            FrameRate::Tv29970 => "29.970 (30000/1001)",
            FrameRate::Tv25 => "25.000 (25)",
            FrameRate::Hfr60 => "60.000 (60)",
            FrameRate::Hfr59940 => "59.940 (60000/1001)",
        }
    }

    /// The ratio string passed verbatim as a multiplexer argument.
    pub fn to_value(&self) -> (r: &'static str)
        ensures
            r@ == ratio_spec(*self),
    {
        match self {
            FrameRate::Film23976 => "24000/1001",
            FrameRate::Film24 => "24",
            FrameRate::Tv29970 => "30000/1001",
            FrameRate::Tv25 => "25",
            FrameRate::Hfr60 => "60",
            FrameRate::Hfr59940 => "60000/1001",
        }
    }
}

/// The mapping from frame rate to ratio string is a fixed function: two
/// renderings of one rate are always the same string. Together with the
/// contract of `to_value`, repeated calls return equal strings.
pub proof fn lemma_ratio_fixed(f: FrameRate, r1: Seq<char>, r2: Seq<char>)
    requires
        r1 == ratio_spec(f),
        r2 == ratio_spec(f),
    ensures
        r1 == r2,
{
}

/// Distinct frame rates have distinct ratio strings: the mapping loses
/// nothing.
pub proof fn lemma_ratio_injective(a: FrameRate, b: FrameRate)
    requires
        ratio_spec(a) == ratio_spec(b),
    ensures
        a == b,
{
    reveal_strlit("24000/1001");
    reveal_strlit("24");
    reveal_strlit("30000/1001");
    reveal_strlit("25");
    reveal_strlit("60");
    reveal_strlit("60000/1001");
    assert(ratio_spec(FrameRate::Film23976).len() == 10);
    assert(ratio_spec(FrameRate::Film24).len() == 2);
    assert(ratio_spec(FrameRate::Tv29970).len() == 10);
    assert(ratio_spec(FrameRate::Tv25).len() == 2);
    assert(ratio_spec(FrameRate::Hfr60).len() == 2);
    assert(ratio_spec(FrameRate::Hfr59940).len() == 10);
    assert(ratio_spec(FrameRate::Film23976)[0] == '2');
    assert(ratio_spec(FrameRate::Tv29970)[0] == '3');
    assert(ratio_spec(FrameRate::Hfr59940)[0] == '6');
    assert(ratio_spec(FrameRate::Film24)[0] == '2');
    assert(ratio_spec(FrameRate::Film24)[1] == '4');
    assert(ratio_spec(FrameRate::Tv25)[0] == '2');
    assert(ratio_spec(FrameRate::Tv25)[1] == '5');
    assert(ratio_spec(FrameRate::Hfr60)[0] == '6');
}

} // verus!
