//! The scaling policy for the analysis: disabled, automatic
//! (model/resolution driven), or a custom bounding box, together with its
//! compact textual form and the minimal-scale computation.

use vstd::prelude::*;
use vstd::string::StrSliceExecFns;
use vstd::string::StringExecFns;
use crate::digits::all_dec_digits;
use crate::digits::dec_rep;
use crate::digits::dec_value;
use crate::digits::parse_u32;
use crate::digits::u64_to_string;
use crate::text::find_char;
use crate::text::push_char;
use crate::text::str_equal;

verus! {

/// How the streams are scaled before analysis: never, by the automatic
/// model-dependent heuristic, or to an explicit bounding box.
#[derive(Debug, Clone, Copy, PartialEq, Eq, Hash, Structural)]
pub enum VmafScale {
    Disabled,
    Auto,
    Custom { width: u32, height: u32 },
}

/// The smallest scale target `(w, h)` such that at least one of the `target`
/// bounds is met, preserving aspect ratio: the dimension with the larger
/// `from/target` ratio is pinned to its bound and the other is left to ffmpeg
/// (`-1`). Ratios are compared exactly, as rationals.
pub open spec fn spec_minimally_scale(from: (u32, u32), target: (u32, u32)) -> (i32, i32) {
    if from.1 * target.0 > from.0 * target.1 {
        (-1i32, target.1 as i32)
    } else {
        (target.0 as i32, -1i32)
    }
}

/// Computes the minimal scale target for `from` into the `target` bounding
/// box (see [`spec_minimally_scale`]).
pub fn minimally_scale(from: (u32, u32), target: (u32, u32)) -> (r: (i32, i32))
    ensures
        r == spec_minimally_scale(from, target),
{
    proof {
        assert((from.1 as u64) * (target.0 as u64) <= 0xFFFF_FFFFu64 * 0xFFFF_FFFFu64
            && (from.0 as u64) * (target.1 as u64) <= 0xFFFF_FFFFu64 * 0xFFFF_FFFFu64)
            by (nonlinear_arith)
            requires
                from.0 <= 0xFFFF_FFFFu32,
                from.1 <= 0xFFFF_FFFFu32,
                target.0 <= 0xFFFF_FFFFu32,
                target.1 <= 0xFFFF_FFFFu32,
        ;
    }
    let h_cross = (from.1 as u64) * (target.0 as u64);
    let w_cross = (from.0 as u64) * (target.1 as u64);
    if h_cross > w_cross {
        (-1, #[verifier::truncate] (target.1 as i32))
    } else {
        (#[verifier::truncate] (target.0 as i32), -1)
    }
}

/// The fixed message reported when the textual form of a scale policy cannot
/// be parsed.
pub open spec fn scale_parse_err_msg() -> Seq<char> {
    "vmaf-scale must be 'none', 'auto' or WxH format e.g. '1920x1080'"@
}

/// `i` is the position of the first `x` in `s`.
pub open spec fn first_x_at(s: Seq<char>, i: int) -> bool {
    0 <= i < s.len() && s[i] == 'x' && forall|j: int| 0 <= j < i ==> s[j] != 'x'
}

/// The value denoted by the textual form of a scale policy: `"none"`,
/// `"auto"`, or `"<width>x<height>"` split at the first `x`, with both parts
/// non-empty runs of decimal digits whose values fit in `u32`. Anything else
/// denotes nothing.
pub open spec fn spec_parse_scale(s: Seq<char>) -> Option<VmafScale> {
    if s == "none"@ {
        Some(VmafScale::Disabled)
    } else if s == "auto"@ {
        Some(VmafScale::Auto)
    } else if exists|i: int| first_x_at(s, i) {
        let i = choose|i: int| first_x_at(s, i);
        let w = s.subrange(0, i);
        let h = s.subrange(i + 1, s.len() as int);
        if all_dec_digits(w) && dec_value(w) <= u32::MAX && all_dec_digits(h) && dec_value(h)
            <= u32::MAX {
            Some(
                VmafScale::Custom {
                    width: dec_value(w) as u32,
                    height: dec_value(h) as u32,
                },
            )
        } else {
            Option::None
        }
    } else {
        Option::None
    }
}

proof fn lemma_first_x_unique(s: Seq<char>, i: int, j: int)
    requires
        first_x_at(s, i),
        first_x_at(s, j),
    ensures
        i == j,
{
    if i < j {
        assert(s[i] != 'x');
    } else if j < i {
        assert(s[j] != 'x');
    }
}

/// Parses the textual form of a scale policy; on failure returns the fixed
/// explanatory message.
pub fn parse_vmaf_scale(vs: &str) -> (r: Result<VmafScale, String>)
    ensures
        match r {
            Ok(v) => spec_parse_scale(vs@) == Some(v),
            Err(e) => spec_parse_scale(vs@) is None && e@ == scale_parse_err_msg(),
        },
{
    if str_equal(vs, "none") {
        return Ok(VmafScale::Disabled);
    }
    if str_equal(vs, "auto") {
        return Ok(VmafScale::Auto);
    }
    match find_char(vs, 'x') {
        Option::None => Err(
            String::from_str("vmaf-scale must be 'none', 'auto' or WxH format e.g. '1920x1080'"),
        ),
        Some(i) => {
            proof {
                assert(first_x_at(vs@, i as int));
                lemma_first_x_unique(vs@, i as int, choose|k: int| first_x_at(vs@, k));
            }
            let len = vs.unicode_len();
            let w = vs.substring_char(0, i);
            let h = vs.substring_char(i + 1, len);
            match (parse_u32(w), parse_u32(h)) {
                (Some(width), Some(height)) => Ok(VmafScale::Custom { width, height }),
                _ => Err(
                    String::from_str(
                        "vmaf-scale must be 'none', 'auto' or WxH format e.g. '1920x1080'",
                    ),
                ),
            }
        },
    }
}

/// The textual form of a scale policy: `"none"`, `"auto"`, or
/// `"<width>x<height>"`.
pub open spec fn spec_scale_display(v: VmafScale) -> Seq<char> {
    match v {
        VmafScale::Disabled => "none"@,
        VmafScale::Auto => "auto"@,
        VmafScale::Custom { width, height } => dec_rep(width as nat) + seq!['x'] + dec_rep(
            height as nat,
        ),
    }
}

impl VmafScale {
    /// Renders the policy in its compact textual form.
    pub fn display(&self) -> (r: String)
        ensures
            r@ == spec_scale_display(*self),
    {
        match self {
            VmafScale::Disabled => String::from_str("none"),
            VmafScale::Auto => String::from_str("auto"),
            VmafScale::Custom { width, height } => {
                let mut r = u64_to_string(*width as u64);
                push_char(&mut r, 'x');
                let hs = u64_to_string(*height as u64);
                r.append(hs.as_str());
                proof {
                    assert(r@ =~= spec_scale_display(*self));
                }
                r
            },
        }
    }
}

} // verus!
