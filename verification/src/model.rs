//! Resolving which VMAF model the argument tokens select: the canonical
//! 1080p model, the canonical 4K model, or a user-supplied custom model.

use vstd::prelude::*;
use crate::text::contains_seq;
use crate::text::ends_with_seq;
use crate::text::str_contains;
use crate::text::str_ends_with;

verus! {

/// The model class resolved from the argument tokens.
#[derive(Debug, Clone, Copy, PartialEq, Eq, Hash, Structural)]
pub enum VmafModel {
    /// The canonical 1080p model, the default.
    Vmaf1K,
    /// The canonical 4K model.
    Vmaf4K,
    /// Some other, user-specified model.
    Custom,
}

/// The token mentions a model selection.
pub open spec fn has_model_token(a: Seq<char>) -> bool {
    contains_seq(a, "model"@)
}

/// How many tokens mention a model selection.
pub open spec fn count_model_tokens(args: Seq<Seq<char>>) -> nat
    decreases args.len(),
{
    if args.len() == 0 {
        0
    } else {
        count_model_tokens(args.drop_last()) + if has_model_token(args.last()) {
            1nat
        } else {
            0nat
        }
    }
}

/// The first token that mentions a model selection (meaningful only when at
/// least one does).
pub open spec fn first_model_token(args: Seq<Seq<char>>) -> Seq<char>
    decreases args.len(),
{
    if args.len() == 0 {
        Seq::empty()
    } else if count_model_tokens(args.drop_last()) >= 1 {
        first_model_token(args.drop_last())
    } else if has_model_token(args.last()) {
        args.last()
    } else {
        Seq::empty()
    }
}

/// Classifies a single model token by its exact suffix.
pub open spec fn classify_model_token(t: Seq<char>) -> VmafModel {
    if ends_with_seq(t, "version=vmaf_v0.6.1"@) {
        VmafModel::Vmaf1K
    } else if ends_with_seq(t, "version=vmaf_4k_v0.6.1"@) {
        VmafModel::Vmaf4K
    } else {
        VmafModel::Custom
    }
}

/// The model resolved from the argument tokens: none mentioned, the single
/// mention classified by suffix, or `Custom` for two or more mentions.
pub open spec fn spec_model_from_args(args: Seq<Seq<char>>) -> Option<VmafModel> {
    if count_model_tokens(args) == 0 {
        None
    } else if count_model_tokens(args) == 1 {
        Some(classify_model_token(first_model_token(args)))
    } else {
        Some(VmafModel::Custom)
    }
}

impl VmafModel {
    /// Scans the argument tokens for a model selection: no mention resolves
    /// to `None`, a single mention is classified by its exact version
    /// suffix, and two or more mentions are always treated as `Custom`.
    pub fn from_args(args: &Vec<String>) -> (r: Option<VmafModel>)
        ensures
            r == spec_model_from_args(args.deep_view()),
    {
        let ghost dv = args.deep_view();
        let mut count: usize = 0;
        let mut first_idx: usize = 0;
        let mut i: usize = 0;
        while i < args.len()
            invariant
                dv == args.deep_view(),
                dv.len() == args@.len(),
                i <= args@.len(),
                count == count_model_tokens(dv.take(i as int)),
                count <= i,
                count >= 1 ==> first_idx < i && dv[first_idx as int] == first_model_token(
                    dv.take(i as int),
                ),
            decreases args@.len() - i,
        {
            let found = str_contains(args[i].as_str(), "model");
            proof {
                assert(dv.take(i + 1).drop_last() =~= dv.take(i as int));
                assert(dv.take(i + 1).last() == dv[i as int]);
                assert(dv[i as int] == args@[i as int]@);
            }
            if found {
                if count == 0 {
                    first_idx = i;
                }
                count += 1;
            }
            i += 1;
        }
        proof {
            assert(dv.take(args@.len() as int) =~= dv);
        }
        if count == 0 {
            None
        } else if count == 1 {
            let t = &args[first_idx];
            if str_ends_with(t.as_str(), "version=vmaf_v0.6.1") {
                Some(VmafModel::Vmaf1K)
            } else if str_ends_with(t.as_str(), "version=vmaf_4k_v0.6.1") {
                Some(VmafModel::Vmaf4K)
            } else {
                Some(VmafModel::Custom)
            }
        } else {
            Some(VmafModel::Custom)
        }
    }
}

} // verus!
