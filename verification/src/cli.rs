//! Decisions taken from the command line before the window opens: the
//! multisample count and the primitive-topology variant.

use vstd::prelude::*;

use vstd::string::StringSliceAdditionalSpecFns;

verus! {

/// An ASCII decimal digit.
pub open spec fn spec_is_digit(b: u8) -> bool {
    0x30 <= b && b <= 0x39
}

/// Every byte of the sequence is an ASCII decimal digit.
pub open spec fn spec_all_digits(s: Seq<u8>) -> bool {
    forall|i: int| 0 <= i < s.len() ==> spec_is_digit(#[trigger] s[i])
}

/// The number an all-digit byte sequence denotes in decimal.
pub open spec fn spec_decimal_value(s: Seq<u8>) -> nat
    decreases s.len(),
{
    if s.len() == 0 {
        0
    } else {
        (spec_decimal_value(s.drop_last()) * 10 + s.last() - 0x30) as nat
    }
}

/// On an all-digit sequence the denoted number never shrinks as the prefix
/// grows: appending digits multiplies by ten and adds.
proof fn lemma_decimal_value_prefix_le(s: Seq<u8>, i: int, j: int)
    requires
        0 <= i <= j <= s.len(),
        spec_all_digits(s),
    ensures
        spec_decimal_value(s.take(i)) <= spec_decimal_value(s.take(j)),
    decreases j - i,
{
    if i < j {
        lemma_decimal_value_prefix_le(s, i, j - 1);
        assert(s.take(j).drop_last() =~= s.take(j - 1));
        assert(s.take(j).last() == s[j - 1]);
    }
}

/// Reads a decimal number. Returns the denoted value exactly when the string
/// is non-empty, all digits, and the value fits; reports the failure
/// otherwise.
pub fn parse_u32(s: &str) -> (r: Option<u32>)
    ensures
        match r {
            Some(v) => s.spec_bytes().len() > 0 && spec_all_digits(s.spec_bytes()) && v
                == spec_decimal_value(s.spec_bytes()),
            None => s.spec_bytes().len() == 0 || !spec_all_digits(s.spec_bytes())
                || spec_decimal_value(s.spec_bytes()) > u32::MAX,
        },
{
    let bytes = s.as_bytes();
    if bytes.len() == 0 {
        return None;
    }
    let mut acc: u32 = 0;
    let mut i: usize = 0;
    while i < bytes.len()
        invariant
            i <= bytes@.len(),
            bytes@ == s.spec_bytes(),
            spec_all_digits(bytes@.take(i as int)),
            acc == spec_decimal_value(bytes@.take(i as int)),
        decreases bytes@.len() - i,
    {
        let b = bytes[i];
        if b < 0x30 || b > 0x39 {
            assert(!spec_is_digit(bytes@[i as int]));
            return None;
        }
        let d: u32 = (b - 0x30) as u32;
        proof {
            assert(bytes@.take(i + 1).drop_last() =~= bytes@.take(i as int));
            assert(bytes@.take(i + 1).last() == bytes@[i as int]);
        }
        if acc > u32::MAX / 10 || (acc == u32::MAX / 10 && d > u32::MAX % 10) {
            proof {
                assert(spec_decimal_value(bytes@.take(i + 1)) > u32::MAX);
                if spec_all_digits(bytes@) {
                    lemma_decimal_value_prefix_le(bytes@, i + 1, bytes@.len() as int);
                    assert(bytes@.take(bytes@.len() as int) =~= bytes@);
                }
            }
            return None;
        }
        acc = acc * 10 + d;
        i = i + 1;
    }
    proof {
        assert(bytes@.take(bytes@.len() as int) =~= bytes@);
    }
    Some(acc)
}

/// The multisample count selected by an optional command-line argument:
/// the denoted number where one is given, parses, and names a usable count;
/// otherwise 1, meaning no multisampling.
pub open spec fn spec_sample_count(arg: Option<&str>) -> u32 {
    match arg {
        Some(s) => if s.spec_bytes().len() > 0 && spec_all_digits(s.spec_bytes())
            && spec_decimal_value(s.spec_bytes()) <= u32::MAX && spec_decimal_value(
            s.spec_bytes(),
        ) >= 1 {
            spec_decimal_value(s.spec_bytes()) as u32
        } else {
            1
        },
        None => 1,
    }
}

/// Reads the multisample count from the optional first argument, falling
/// back to 1 — no multisampling — when it is absent, unparsable, or zero.
pub fn sample_count_from_arg(arg: Option<&str>) -> (r: u32)
    ensures
        r == spec_sample_count(arg),
        r >= 1,
{
    match arg {
        Some(s) => {
            match parse_u32(s) {
                Some(v) => if v >= 1 {
                    v
                } else {
                    1
                },
                None => 1,
            }
        },
        None => 1,
    }
}

/// Primitive topologies a pipeline can be built with.
#[derive(Clone, Copy, Debug, PartialEq, Eq, Structural)]
pub enum Topology {
    PointList,
    LineList,
    LineStrip,
    TriangleList,
    TriangleStrip,
}

/// Width of the indices a strip topology cuts on.
#[derive(Clone, Copy, Debug, PartialEq, Eq, Structural)]
pub enum IndexFormatKind {
    Uint16,
    Uint32,
}

/// The pipeline-construction inputs a rendering variant selects: the
/// primitive topology and, for strip topologies, the index format whose
/// sentinel value restarts the strip.
#[derive(Clone, Copy, Debug, PartialEq, Eq)]
pub struct Inputs {
    pub topology: Topology,
    pub strip_index_format: Option<IndexFormatKind>,
}

/// The pipeline inputs the variant name selects: the strip variant by its
/// name, the list variant for every other spelling.
pub open spec fn spec_primitive_inputs(name: Seq<char>) -> Inputs {
    if name == "triangle-strip"@ {
        Inputs { topology: Topology::TriangleStrip, strip_index_format: Some(IndexFormatKind::Uint32) }
    } else {
        Inputs { topology: Topology::TriangleList, strip_index_format: None }
    }
}

/// Selects the pipeline inputs for a primitive-variant name given on the
/// command line: "triangle-strip" draws a strip with 32-bit indices, any
/// other name the default triangle list.
pub fn primitive_inputs(name: &str) -> (r: Inputs)
    ensures
        r == spec_primitive_inputs(name@),
{
    let strip = name.to_owned() == "triangle-strip".to_owned();
    if strip {
        Inputs { topology: Topology::TriangleStrip, strip_index_format: Some(IndexFormatKind::Uint32) }
    } else {
        Inputs { topology: Topology::TriangleList, strip_index_format: None }
    }
}

} // verus!
