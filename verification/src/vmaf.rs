//! The analysis options and the filter-graph builder: composes pixel-format
//! normalization, an optional reference-side pre-filter, timestamp fixation,
//! optional scaling, and the analysis-filter invocation into the single
//! `lavfi` string, and derives the per-input process arguments.

use vstd::prelude::*;
use vstd::string::StrSliceExecFns;
use vstd::string::StringExecFns;
use crate::digits::dec_rep;
use crate::digits::int_rep;
use crate::digits::u64_to_string;
use crate::digits::i32_to_string;
use crate::model::VmafModel;
use crate::model::spec_model_from_args;
use crate::pixel::PixelFormat;
use crate::pixel::pix_fmt_name;
use crate::scale::VmafScale;
use crate::scale::spec_minimally_scale;
use crate::scale::minimally_scale;
use crate::text::contains_seq;
use crate::text::join_colon;
use crate::text::join_args;
use crate::text::push_char;
use crate::text::str_contains;

verus! {

/// The options of one quality analysis: free-form `key=value` tokens for the
/// analysis filter (order-preserving, never deduplicated), the scaling
/// policy, an optional reference-side filter override, and the GPU flag.
#[derive(Debug, Clone, Hash)]
pub struct Vmaf {
    /// Additional analysis-filter arguments, e.g. `n_threads=8`.
    pub vmaf_args: Vec<String>,
    /// Video resolution scaling to use during the analysis.
    pub vmaf_scale: VmafScale,
    /// Video filter applied to the reference stream before analysis;
    /// overrides an externally supplied one.
    pub reference_vfilter: Option<String>,
    /// Use the GPU-accelerated analysis filter instead of the CPU one.
    pub cuda: bool,
}

/// Accepts any token verbatim as an extra analysis-filter argument.
pub fn parse_vmaf_arg(arg: &str) -> (r: String)
    ensures
        r@ == arg@,
{
    arg.to_owned()
}

/// The default thread-count token for `n` threads.
pub open spec fn n_threads_token(n: nat) -> Seq<char> {
    "n_threads="@ + dec_rep(n)
}

/// Some argument token mentions `n_threads`.
pub open spec fn has_thread_token(args: Seq<Seq<char>>) -> bool {
    exists|i: int| 0 <= i < args.len() && contains_seq(args[i], "n_threads"@)
}

/// The argument tokens actually handed to the analysis filter: on the CPU
/// path, when no token mentions `n_threads`, a default thread-count token is
/// appended after all user tokens; otherwise the list is unchanged.
pub open spec fn augmented_args(args: Seq<Seq<char>>, cuda: bool, n_threads: nat) -> Seq<
    Seq<char>,
> {
    if !cuda && !has_thread_token(args) {
        args.push(n_threads_token(n_threads))
    } else {
        args
    }
}

/// The analysis filter's name and fixed quality/sync parameters.
pub open spec fn filter_head(cuda: bool) -> Seq<char> {
    if cuda {
        "libvmaf_cuda=shortest=true:ts_sync_mode=nearest:"@
    } else {
        "libvmaf=shortest=true:ts_sync_mode=nearest:"@
    }
}

/// The annotation appended when the builder falls back to the 4K model.
pub open spec fn model_4k_annotation() -> Seq<char> {
    ":model=version=vmaf_4k_v0.6.1"@
}

/// The builder appends the 4K-model annotation exactly when no argument
/// token resolved a model and the distorted resolution is known to exceed
/// 2560x1440.
pub open spec fn appends_4k_model(args2: Seq<Seq<char>>, res: Option<(u32, u32)>) -> bool {
    match res {
        Some(r) => spec_model_from_args(args2) is None && r.0 > 2560 && r.1 > 1440,
        Option::None => false,
    }
}

/// The model the scale decision uses: the resolved one, the 4K model after
/// the resolution-driven fallback, or the default 1080p model.
pub open spec fn effective_model(args2: Seq<Seq<char>>, res: Option<(u32, u32)>) -> VmafModel {
    if appends_4k_model(args2, res) {
        VmafModel::Vmaf4K
    } else {
        match spec_model_from_args(args2) {
            Some(m) => m,
            Option::None => VmafModel::Vmaf1K,
        }
    }
}

/// A reference filter normalized to end with exactly the comma that chains
/// it in front of the following filter step.
pub open spec fn normalized_vf(vf: Seq<char>) -> Seq<char> {
    if vf.len() > 0 && vf.last() == ',' {
        vf
    } else {
        vf.push(',')
    }
}

/// The reference-side pre-filter in effect: the per-call override wins over
/// the externally supplied filter; absent both, no pre-filter.
pub open spec fn effective_ref_vf(own: Option<Seq<char>>, ext: Option<Seq<char>>) -> Seq<char> {
    match own {
        Some(vf) => normalized_vf(vf),
        Option::None => match ext {
            Some(vf) => normalized_vf(vf),
            Option::None => Seq::empty(),
        },
    }
}

/// The pixel format in effect: the GPU scale filter supports only 8-bit
/// 4:2:0, so GPU mode coerces every format to it.
pub open spec fn effective_pix_fmt(cuda: bool, pf: PixelFormat) -> PixelFormat {
    if cuda {
        PixelFormat::Yuv420p
    } else {
        pf
    }
}

/// The timestamp fixation chained onto both streams.
pub open spec fn pts_fix() -> Seq<char> {
    "settb=AVTB,setpts=N/FRAME_RATE/TB"@
}

/// The scale target for the given policy, model and distorted resolution:
/// `Auto` upscales small inputs to the bounding box of the (non-custom)
/// model, a custom box is always honored, and an unknown resolution under a
/// custom box uses the box dimensions directly.
pub open spec fn spec_vf_scale(policy: VmafScale, model: VmafModel, res: Option<(u32, u32)>) -> Option<
    (i32, i32),
> {
    match (policy, res) {
        (VmafScale::Auto, Some(r)) => match model {
            VmafModel::Vmaf1K => if r.0 < 1728 && r.1 < 972 {
                Some(spec_minimally_scale(r, (1920u32, 1080u32)))
            } else {
                Option::None
            },
            VmafModel::Vmaf4K => if r.0 < 3456 && r.1 < 1944 {
                Some(spec_minimally_scale(r, (3840u32, 2160u32)))
            } else {
                Option::None
            },
            VmafModel::Custom => Option::None,
        },
        (VmafScale::Custom { width, height }, Some(r)) => Some(
            spec_minimally_scale(r, (width, height)),
        ),
        (VmafScale::Custom { width, height }, Option::None) => Some(
            (width as i32, height as i32),
        ),
        _ => Option::None,
    }
}

/// The two-stream prefix: both streams are converted to the effective pixel
/// format, optionally scaled (bicubic), the reference stream gets its
/// pre-filter, and both end in timestamp fixation before being labeled.
pub open spec fn spec_prefix(
    cuda: bool,
    pf: Seq<char>,
    scale: Option<(i32, i32)>,
    ref_vf: Seq<char>,
) -> Seq<char> {
    match scale {
        Some(s) => {
            let w = int_rep(s.0 as int);
            let h = int_rep(s.1 as int);
            if cuda {
                "[0:v]scale_cuda=format="@ + pf + ":w="@ + w + ":h="@ + h
                    + ":interp_algo=bicubic,"@ + pts_fix() + "[dis];[1:v]scale_cuda=format="@ + pf
                    + ":w="@ + w + ":h="@ + h + ":interp_algo=bicubic,"@ + ref_vf + pts_fix()
                    + "[ref];[dis][ref]"@
            } else {
                "[0:v]format="@ + pf + ",scale="@ + w + ":"@ + h + ":flags=bicubic,"@ + pts_fix()
                    + "[dis];[1:v]format="@ + pf + ","@ + ref_vf + "scale="@ + w + ":"@ + h
                    + ":flags=bicubic,"@ + pts_fix() + "[ref];[dis][ref]"@
            }
        },
        Option::None => {
            if cuda {
                "[0:v]scale_cuda=format="@ + pf + ","@ + pts_fix()
                    + "[dis];[1:v]scale_cuda=format="@ + pf + ","@ + ref_vf + pts_fix()
                    + "[ref];[dis][ref]"@
            } else {
                "[0:v]format="@ + pf + ","@ + pts_fix() + "[dis];[1:v]format="@ + pf + ","@
                    + ref_vf + pts_fix() + "[ref];[dis][ref]"@
            }
        },
    }
}

/// The complete filter-graph string for one analysis.
pub open spec fn spec_lavfi(
    args: Seq<Seq<char>>,
    policy: VmafScale,
    own_ref: Option<Seq<char>>,
    cuda: bool,
    res: Option<(u32, u32)>,
    pf: PixelFormat,
    ext_ref: Option<Seq<char>>,
    n_threads: nat,
) -> Seq<char> {
    let args2 = augmented_args(args, cuda, n_threads);
    let annotation = if appends_4k_model(args2, res) {
        model_4k_annotation()
    } else {
        Seq::<char>::empty()
    };
    let scale = spec_vf_scale(policy, effective_model(args2, res), res);
    spec_prefix(cuda, pix_fmt_name(effective_pix_fmt(cuda, pf)), scale, effective_ref_vf(own_ref, ext_ref))
        + filter_head(cuda) + join_colon(args2) + annotation
}

/// The fixed hardware-acceleration arguments of the GPU path.
pub open spec fn cuda_input_args() -> Seq<Seq<char>> {
    seq!["-hwaccel"@, "cuda"@, "-hwaccel_output_format"@, "cuda"@]
}

/// The extra per-input process arguments: empty on the CPU path, the fixed
/// hardware-acceleration arguments on the GPU path.
pub open spec fn spec_input_args(cuda: bool) -> Seq<Seq<char>> {
    if cuda {
        cuda_input_args()
    } else {
        Seq::empty()
    }
}

fn clone_tokens(v: &Vec<String>) -> (r: Vec<String>)
    ensures
        r.deep_view() == v.deep_view(),
{
    let mut r: Vec<String> = Vec::new();
    let mut i: usize = 0;
    while i < v.len()
        invariant
            i <= v@.len(),
            r@.len() == i,
            forall|j: int| 0 <= j < i ==> r@[j] == v@[j],
        decreases v@.len() - i,
    {
        r.push(v[i].clone());
        i += 1;
    }
    proof {
        assert(r.deep_view() =~= v.deep_view());
    }
    r
}

fn any_token_contains(args: &Vec<String>, sub: &str) -> (r: bool)
    ensures
        r == exists|i: int|
            0 <= i < args.deep_view().len() && contains_seq(args.deep_view()[i], sub@),
{
    let mut i: usize = 0;
    while i < args.len()
        invariant
            i <= args@.len(),
            args.deep_view().len() == args@.len(),
            forall|j: int| 0 <= j < i ==> !contains_seq(args.deep_view()[j], sub@),
        decreases args@.len() - i,
    {
        if str_contains(args[i].as_str(), sub) {
            proof {
                assert(args.deep_view()[i as int] == args@[i as int]@);
            }
            return true;
        }
        i += 1;
    }
    false
}

fn normalize_vf(vf: &str) -> (r: String)
    ensures
        r@ == normalized_vf(vf@),
{
    let len = vf.unicode_len();
    if len > 0 && vf.get_char(len - 1) == ',' {
        vf.to_owned()
    } else {
        let mut s = vf.to_owned();
        push_char(&mut s, ',');
        s
    }
}

fn build_prefix(cuda: bool, pf: &str, scale: Option<(i32, i32)>, ref_vf: &str) -> (r: String)
    ensures
        r@ == spec_prefix(cuda, pf@, scale, ref_vf@),
{
    let pts = "settb=AVTB,setpts=N/FRAME_RATE/TB";
    match scale {
        Some(s) => {
            let ws = i32_to_string(s.0);
            let hs = i32_to_string(s.1);
            if cuda {
                let mut r = String::from_str("[0:v]scale_cuda=format=");
                r.append(pf);
                r.append(":w=");
                r.append(ws.as_str());
                r.append(":h=");
                r.append(hs.as_str());
                r.append(":interp_algo=bicubic,");
                r.append(pts);
                r.append("[dis];[1:v]scale_cuda=format=");
                r.append(pf);
                r.append(":w=");
                r.append(ws.as_str());
                r.append(":h=");
                r.append(hs.as_str());
                r.append(":interp_algo=bicubic,");
                r.append(ref_vf);
                r.append(pts);
                r.append("[ref];[dis][ref]");
                proof {
                    assert(r@ =~= spec_prefix(cuda, pf@, scale, ref_vf@));
                }
                r
            } else {
                let mut r = String::from_str("[0:v]format=");
                r.append(pf);
                r.append(",scale=");
                r.append(ws.as_str());
                r.append(":");
                r.append(hs.as_str());
                r.append(":flags=bicubic,");
                r.append(pts);
                r.append("[dis];[1:v]format=");
                r.append(pf);
                r.append(",");
                r.append(ref_vf);
                r.append("scale=");
                r.append(ws.as_str());
                r.append(":");
                r.append(hs.as_str());
                r.append(":flags=bicubic,");
                r.append(pts);
                r.append("[ref];[dis][ref]");
                proof {
                    assert(r@ =~= spec_prefix(cuda, pf@, scale, ref_vf@));
                }
                r
            }
        },
        Option::None => {
            if cuda {
                let mut r = String::from_str("[0:v]scale_cuda=format=");
                r.append(pf);
                r.append(",");
                r.append(pts);
                r.append("[dis];[1:v]scale_cuda=format=");
                r.append(pf);
                r.append(",");
                r.append(ref_vf);
                r.append(pts);
                r.append("[ref];[dis][ref]");
                proof {
                    assert(r@ =~= spec_prefix(cuda, pf@, scale, ref_vf@));
                }
                r
            } else {
                let mut r = String::from_str("[0:v]format=");
                r.append(pf);
                r.append(",");
                r.append(pts);
                r.append("[dis];[1:v]format=");
                r.append(pf);
                r.append(",");
                r.append(ref_vf);
                r.append(pts);
                r.append("[ref];[dis][ref]");
                proof {
                    assert(r@ =~= spec_prefix(cuda, pf@, scale, ref_vf@));
                }
                r
            }
        },
    }
}

impl Vmaf {
    /// True exactly when every option still has its default value.
    pub fn is_default(&self) -> (r: bool)
        ensures
            r == (self.vmaf_args@.len() == 0 && self.vmaf_scale == VmafScale::Auto
                && self.reference_vfilter is None && !self.cuda),
    {
        self.vmaf_args.len() == 0 && self.vmaf_scale == VmafScale::Auto
            && self.reference_vfilter.is_none() && !self.cuda
    }

    /// The scale target for this option set (see [`spec_vf_scale`]).
    pub fn vf_scale(&self, model: VmafModel, distorted_res: Option<(u32, u32)>) -> (r: Option<
        (i32, i32),
    >)
        ensures
            r == spec_vf_scale(self.vmaf_scale, model, distorted_res),
    {
        match (self.vmaf_scale, distorted_res) {
            (VmafScale::Auto, Some(r)) => match model {
                VmafModel::Vmaf1K => if r.0 < 1728 && r.1 < 972 {
                    Some(minimally_scale(r, (1920, 1080)))
                } else {
                    Option::None
                },
                VmafModel::Vmaf4K => if r.0 < 3456 && r.1 < 1944 {
                    Some(minimally_scale(r, (3840, 2160)))
                } else {
                    Option::None
                },
                VmafModel::Custom => Option::None,
            },
            (VmafScale::Custom { width, height }, Some(r)) => Some(
                minimally_scale(r, (width, height)),
            ),
            (VmafScale::Custom { width, height }, Option::None) => Some(
                (
                    #[verifier::truncate] (width as i32),
                    #[verifier::truncate] (height as i32),
                ),
            ),
            _ => Option::None,
        }
    }

    /// Builds the `filter_complex`/`lavfi` value that computes the quality
    /// score of the distorted stream (input 0) against the reference stream
    /// (input 1). `ref_vfilter` is ignored when `self.reference_vfilter` is
    /// set; `n_threads` is the caller-detected available parallelism, used
    /// only when no argument token already picks a thread count.
    pub fn ffmpeg_lavfi(
        &self,
        distorted_res: Option<(u32, u32)>,
        pix_fmt: PixelFormat,
        ref_vfilter: Option<&str>,
        n_threads: usize,
    ) -> (r: String)
        ensures
            r@ == spec_lavfi(
                self.vmaf_args.deep_view(),
                self.vmaf_scale,
                self.reference_vfilter.deep_view(),
                self.cuda,
                distorted_res,
                pix_fmt,
                ref_vfilter.deep_view(),
                n_threads as nat,
            ),
    {
        let ghost dv0 = self.vmaf_args.deep_view();
        let mut args = clone_tokens(&self.vmaf_args);
        if !self.cuda && !any_token_contains(&args, "n_threads") {
            let mut tok = String::from_str("n_threads=");
            let num = u64_to_string(n_threads as u64);
            tok.append(num.as_str());
            let ghost pre = args.deep_view();
            args.push(tok);
            proof {
                assert(tok@ == n_threads_token(n_threads as nat));
                assert(args.deep_view() =~= pre.push(tok@));
            }
        }
        let ghost args2 = augmented_args(dv0, self.cuda, n_threads as nat);
        proof {
            assert(args.deep_view() == args2);
        }
        let joined = join_args(&args);
        let mut lavfi = if self.cuda {
            String::from_str("libvmaf_cuda=shortest=true:ts_sync_mode=nearest:")
        } else {
            String::from_str("libvmaf=shortest=true:ts_sync_mode=nearest:")
        };
        lavfi.append(joined.as_str());

        let model0 = VmafModel::from_args(&args);
        let mut model = model0;
        if model0.is_none() {
            if let Some(res) = distorted_res {
                if res.0 > 2560 && res.1 > 1440 {
                    // resolutions beyond 2560x1440 fall back to the 4K model
                    lavfi.append(":model=version=vmaf_4k_v0.6.1");
                    model = Some(VmafModel::Vmaf4K);
                }
            }
        }
        proof {
            assert(appends_4k_model(args2, distorted_res) <==> model == Some::<VmafModel>(
                VmafModel::Vmaf4K,
            ) && model0 is None);
        }

        let ref_vf: String = match &self.reference_vfilter {
            Some(own) => normalize_vf(own.as_str()),
            Option::None => match ref_vfilter {
                Some(vf) => normalize_vf(vf),
                Option::None => String::new(),
            },
        };

        let epf = if self.cuda {
            PixelFormat::Yuv420p
        } else {
            pix_fmt
        };

        let model_for_scale = match model {
            Some(m) => m,
            Option::None => VmafModel::Vmaf1K,
        };
        proof {
            assert(model_for_scale == effective_model(args2, distorted_res));
        }
        let scale = self.vf_scale(model_for_scale, distorted_res);

        let mut out = build_prefix(self.cuda, epf.as_str(), scale, ref_vf.as_str());
        out.append(lavfi.as_str());
        proof {
            assert(out@ =~= spec_lavfi(
                dv0,
                self.vmaf_scale,
                self.reference_vfilter.deep_view(),
                self.cuda,
                distorted_res,
                pix_fmt,
                ref_vfilter.deep_view(),
                n_threads as nat,
            ));
        }
        out
    }

    /// The extra process arguments for the reference input stream.
    pub fn reference_input_args(&self) -> (r: Vec<&'static str>)
        ensures
            r.deep_view() == spec_input_args(self.cuda),
    {
        if self.cuda {
            self.cuda_output_format_input_args()
        } else {
            let v: Vec<&'static str> = Vec::new();
            proof {
                assert(v.deep_view() =~= Seq::<Seq<char>>::empty());
            }
            v
        }
    }

    /// The extra process arguments for the distorted input stream.
    pub fn distorted_input_args(&self) -> (r: Vec<&'static str>)
        ensures
            r.deep_view() == spec_input_args(self.cuda),
    {
        if self.cuda {
            self.cuda_output_format_input_args()
        } else {
            let v: Vec<&'static str> = Vec::new();
            proof {
                assert(v.deep_view() =~= Seq::<Seq<char>>::empty());
            }
            v
        }
    }

    /// The fixed hardware-acceleration arguments of the GPU path.
    pub fn cuda_output_format_input_args(&self) -> (r: Vec<&'static str>)
        ensures
            r.deep_view() == cuda_input_args(),
    {
        let mut v: Vec<&'static str> = Vec::new();
        v.push("-hwaccel");
        v.push("cuda");
        v.push("-hwaccel_output_format");
        v.push("cuda");
        proof {
            assert(v.deep_view() =~= cuda_input_args());
        }
        v
    }
}

/// Law: on the CPU path, when no argument token mentions `n_threads`, the
/// builder appends exactly one default thread-count token, after all user
/// tokens, and leaves every user token unchanged.
pub proof fn lemma_thread_count_injection(args: Seq<Seq<char>>, n_threads: nat)
    requires
        forall|i: int| 0 <= i < args.len() ==> !contains_seq(args[i], "n_threads"@),
    ensures
        augmented_args(args, false, n_threads).len() == args.len() + 1,
        augmented_args(args, false, n_threads).subrange(0, args.len() as int) == args,
        augmented_args(args, false, n_threads).last() == n_threads_token(n_threads),
        contains_seq(augmented_args(args, false, n_threads).last(), "n_threads"@),
        forall|i: int|
            0 <= i < args.len() ==> !contains_seq(augmented_args(args, false, n_threads)[i], "n_threads"@),
{
    let aug = augmented_args(args, false, n_threads);
    assert(aug == args.push(n_threads_token(n_threads)));
    assert(aug.subrange(0, args.len() as int) =~= args);
    reveal_strlit("n_threads");
    reveal_strlit("n_threads=");
    let tok = n_threads_token(n_threads);
    assert(tok.subrange(0, 9) =~= "n_threads"@);
    assert(crate::text::matches_at(tok, "n_threads"@, 0));
}

/// Law: when some argument token already mentions `n_threads`, the argument
/// list is passed through with no token appended, in token count and content
/// unchanged.
pub proof fn lemma_no_double_injection(args: Seq<Seq<char>>, cuda: bool, n_threads: nat)
    requires
        exists|i: int| 0 <= i < args.len() && contains_seq(args[i], "n_threads"@),
    ensures
        augmented_args(args, cuda, n_threads) == args,
{
}

/// Law: a user-overridden (custom) model suppresses the automatic scale
/// target under the `Auto` policy, for every resolution, and no 4K-model
/// annotation is appended.
pub proof fn lemma_custom_model_suppresses_auto_scale(
    args2: Seq<Seq<char>>,
    res: Option<(u32, u32)>,
)
    requires
        spec_model_from_args(args2) == Some(VmafModel::Custom),
    ensures
        !appends_4k_model(args2, res),
        effective_model(args2, res) == VmafModel::Custom,
        spec_vf_scale(VmafScale::Auto, effective_model(args2, res), res) is None,
{
}

/// Law: the per-call reference filter always takes precedence over an
/// externally supplied one; a filter lacking a trailing comma gets exactly
/// one appended, and one already ending in a comma passes unchanged.
pub proof fn lemma_reference_filter_precedence(own: Seq<char>, ext: Option<Seq<char>>)
    ensures
        effective_ref_vf(Some(own), ext) == normalized_vf(own),
        own.len() > 0 && own.last() == ',' ==> normalized_vf(own) == own,
        !(own.len() > 0 && own.last() == ',') ==> normalized_vf(own) == own.push(','),
{
}

/// Law: under GPU mode every pixel format is coerced to the single format
/// the GPU scale filter supports.
pub proof fn lemma_gpu_pixel_format_coercion(pf: PixelFormat)
    ensures
        effective_pix_fmt(true, pf) == PixelFormat::Yuv420p,
{
}

} // verus!
