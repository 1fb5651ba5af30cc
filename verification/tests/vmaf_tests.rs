use vmaf_graph::{PixelFormat, Vmaf, VmafScale};

#[test]
fn vmaf_lavfi() {
    let vmaf = Vmaf {
        vmaf_args: vec!["n_threads=5".to_string(), "n_subsample=4".to_string()],
        vmaf_scale: VmafScale::Auto,
        reference_vfilter: None,
        cuda: false,
    };
    assert_eq!(
        vmaf.ffmpeg_lavfi(None, PixelFormat::Yuv420p, Some("scale=1280:-1,fps=24"), 5),
        "[0:v]format=yuv420p,settb=AVTB,setpts=N/FRAME_RATE/TB[dis];\
         [1:v]format=yuv420p,scale=1280:-1,fps=24,settb=AVTB,setpts=N/FRAME_RATE/TB[ref];\
         [dis][ref]libvmaf=shortest=true:ts_sync_mode=nearest:n_threads=5:n_subsample=4"
    );
}

#[test]
fn vmaf_lavfi_override_reference_vfilter() {
    let vmaf = Vmaf {
        vmaf_args: vec!["n_threads=5".to_string(), "n_subsample=4".to_string()],
        vmaf_scale: VmafScale::Auto,
        reference_vfilter: Some("scale=2560:-1".to_string()),
        cuda: false,
    };
    assert_eq!(
        vmaf.ffmpeg_lavfi(
            None,
            PixelFormat::Yuv420p,
            Some("scale_vaapi=w=2560:h=1280"),
            5
        ),
        "[0:v]format=yuv420p,settb=AVTB,setpts=N/FRAME_RATE/TB[dis];\
         [1:v]format=yuv420p,scale=2560:-1,settb=AVTB,setpts=N/FRAME_RATE/TB[ref];\
         [dis][ref]libvmaf=shortest=true:ts_sync_mode=nearest:n_threads=5:n_subsample=4"
    );
}

#[test]
fn vmaf_lavfi_default() {
    let vmaf = Vmaf {
        vmaf_args: vec![],
        vmaf_scale: VmafScale::Auto,
        reference_vfilter: None,
        cuda: false,
    };
    let n_threads = 5;
    let expected = format!(
        "[0:v]format=yuv420p10le,settb=AVTB,setpts=N/FRAME_RATE/TB[dis];\
         [1:v]format=yuv420p10le,settb=AVTB,setpts=N/FRAME_RATE/TB[ref];\
         [dis][ref]libvmaf=shortest=true:ts_sync_mode=nearest:n_threads={n_threads}"
    );
    assert_eq!(
        vmaf.ffmpeg_lavfi(None, PixelFormat::Yuv420p10le, None, n_threads),
        expected
    );
}

#[test]
fn vmaf_lavfi_include_n_threads() {
    let vmaf = Vmaf {
        vmaf_args: vec!["log_path=output.xml".to_string()],
        vmaf_scale: VmafScale::Auto,
        reference_vfilter: None,
        cuda: false,
    };
    let n_threads = 5;
    let expected = format!(
        "[0:v]format=yuv420p,settb=AVTB,setpts=N/FRAME_RATE/TB[dis];\
         [1:v]format=yuv420p,settb=AVTB,setpts=N/FRAME_RATE/TB[ref];\
         [dis][ref]libvmaf=shortest=true:ts_sync_mode=nearest:log_path=output.xml:n_threads={n_threads}"
    );
    assert_eq!(
        vmaf.ffmpeg_lavfi(None, PixelFormat::Yuv420p, None, n_threads),
        expected
    );
}

/// Low resolution videos should be upscaled to 1080p
#[test]
fn vmaf_lavfi_small_width() {
    let vmaf = Vmaf {
        vmaf_args: vec!["n_threads=5".to_string(), "n_subsample=4".to_string()],
        vmaf_scale: VmafScale::Auto,
        reference_vfilter: None,
        cuda: false,
    };
    assert_eq!(
        vmaf.ffmpeg_lavfi(Some((1280, 720)), PixelFormat::Yuv420p, None, 5),
        "[0:v]format=yuv420p,scale=1920:-1:flags=bicubic,settb=AVTB,setpts=N/FRAME_RATE/TB[dis];\
         [1:v]format=yuv420p,scale=1920:-1:flags=bicubic,settb=AVTB,setpts=N/FRAME_RATE/TB[ref];\
         [dis][ref]libvmaf=shortest=true:ts_sync_mode=nearest:n_threads=5:n_subsample=4"
    );
}

/// 4k videos should use 4k model
#[test]
fn vmaf_lavfi_4k() {
    let vmaf = Vmaf {
        vmaf_args: vec!["n_threads=5".to_string(), "n_subsample=4".to_string()],
        vmaf_scale: VmafScale::Auto,
        reference_vfilter: None,
        cuda: false,
    };
    assert_eq!(
        vmaf.ffmpeg_lavfi(Some((3840, 2160)), PixelFormat::Yuv420p, None, 5),
        "[0:v]format=yuv420p,settb=AVTB,setpts=N/FRAME_RATE/TB[dis];\
         [1:v]format=yuv420p,settb=AVTB,setpts=N/FRAME_RATE/TB[ref];\
         [dis][ref]libvmaf=shortest=true:ts_sync_mode=nearest:n_threads=5:n_subsample=4:model=version=vmaf_4k_v0.6.1"
    );
}

/// >2k videos should be upscaled to 4k & use 4k model
#[test]
fn vmaf_lavfi_3k_upscale_to_4k() {
    let vmaf = Vmaf {
        vmaf_args: vec!["n_threads=5".to_string()],
        vmaf_scale: VmafScale::Auto,
        reference_vfilter: None,
        cuda: false,
    };
    assert_eq!(
        vmaf.ffmpeg_lavfi(Some((3008, 1692)), PixelFormat::Yuv420p, None, 5),
        "[0:v]format=yuv420p,scale=3840:-1:flags=bicubic,settb=AVTB,setpts=N/FRAME_RATE/TB[dis];\
         [1:v]format=yuv420p,scale=3840:-1:flags=bicubic,settb=AVTB,setpts=N/FRAME_RATE/TB[ref];\
         [dis][ref]libvmaf=shortest=true:ts_sync_mode=nearest:n_threads=5:model=version=vmaf_4k_v0.6.1"
    );
}

/// If user has overridden the model, don't default a vmaf width
#[test]
fn vmaf_lavfi_small_width_custom_model() {
    let vmaf = Vmaf {
        vmaf_args: vec![
            "model=version=foo".to_string(),
            "n_threads=5".to_string(),
            "n_subsample=4".to_string(),
        ],
        vmaf_scale: VmafScale::Auto,
        reference_vfilter: None,
        cuda: false,
    };
    assert_eq!(
        vmaf.ffmpeg_lavfi(Some((1280, 720)), PixelFormat::Yuv420p, None, 5),
        "[0:v]format=yuv420p,settb=AVTB,setpts=N/FRAME_RATE/TB[dis];\
         [1:v]format=yuv420p,settb=AVTB,setpts=N/FRAME_RATE/TB[ref];\
         [dis][ref]libvmaf=shortest=true:ts_sync_mode=nearest:model=version=foo:n_threads=5:n_subsample=4"
    );
}

#[test]
fn vmaf_lavfi_custom_model_and_width() {
    let vmaf = Vmaf {
        vmaf_args: vec![
            "model=version=foo".to_string(),
            "n_threads=5".to_string(),
            "n_subsample=4".to_string(),
        ],
        // if specified just do it
        vmaf_scale: VmafScale::Custom {
            width: 123,
            height: 720,
        },
        reference_vfilter: None,
        cuda: false,
    };
    assert_eq!(
        vmaf.ffmpeg_lavfi(Some((1280, 720)), PixelFormat::Yuv420p, None, 5),
        "[0:v]format=yuv420p,scale=123:-1:flags=bicubic,settb=AVTB,setpts=N/FRAME_RATE/TB[dis];\
         [1:v]format=yuv420p,scale=123:-1:flags=bicubic,settb=AVTB,setpts=N/FRAME_RATE/TB[ref];\
         [dis][ref]libvmaf=shortest=true:ts_sync_mode=nearest:model=version=foo:n_threads=5:n_subsample=4"
    );
}

#[test]
fn vmaf_lavfi_1080p() {
    let vmaf = Vmaf {
        vmaf_args: vec!["n_threads=5".to_string(), "n_subsample=4".to_string()],
        vmaf_scale: VmafScale::Auto,
        reference_vfilter: None,
        cuda: false,
    };
    assert_eq!(
        vmaf.ffmpeg_lavfi(Some((1920, 1080)), PixelFormat::Yuv420p, None, 5),
        "[0:v]format=yuv420p,settb=AVTB,setpts=N/FRAME_RATE/TB[dis];\
         [1:v]format=yuv420p,settb=AVTB,setpts=N/FRAME_RATE/TB[ref];\
         [dis][ref]libvmaf=shortest=true:ts_sync_mode=nearest:n_threads=5:n_subsample=4"
    );
}
