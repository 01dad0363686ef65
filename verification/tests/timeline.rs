use avsync::clips::{split_clip_at, Clip, FadeKind};
use avsync::filters::{build_fade_filters, build_playback_filters, fit_fades, FadeFilter};
use avsync::i18n::{Language, TextResources};
use avsync::preview::{generate_waveform_args, scaled_preview_size, thumbnail_times};
use avsync::render::{plan_render, RenderPlanError};

fn faded_clip(start_us: u64, end_us: u64, fade_in_us: u64, fade_out_us: u64) -> Clip {
    Clip {
        start_us,
        end_us,
        asset_id: None,
        fade_in_us,
        fade_out_us,
        linked: true,
        video_enabled: true,
        audio_enabled: true,
    }
}

#[test]
fn split_divides_a_clip_and_moves_the_fade_out() {
    let mut clips = vec![faded_clip(0, 10_000_000, 1_000_000, 2_000_000)];
    let new_idx = split_clip_at(&mut clips, 0, 4_000_000);
    assert_eq!(new_idx, Some(1));
    assert_eq!(clips.len(), 2);
    assert_eq!(clips[0].start_us, 0);
    assert_eq!(clips[0].end_us, 4_000_000);
    assert_eq!(clips[0].fade_in_us, 1_000_000);
    assert_eq!(clips[0].fade_out_us, 0);
    assert_eq!(clips[1].start_us, 4_000_000);
    assert_eq!(clips[1].end_us, 10_000_000);
    assert_eq!(clips[1].fade_in_us, 0);
    assert_eq!(clips[1].fade_out_us, 2_000_000);
}

#[test]
fn split_refuses_the_boundary_and_bad_indices() {
    let mut clips = vec![faded_clip(1_000_000, 2_000_000, 0, 0)];
    assert_eq!(split_clip_at(&mut clips, 0, 1_000_000), None);
    assert_eq!(split_clip_at(&mut clips, 0, 2_000_000), None);
    assert_eq!(split_clip_at(&mut clips, 0, 500_000), None);
    assert_eq!(split_clip_at(&mut clips, 5, 1_500_000), None);
    assert_eq!(clips.len(), 1);
}

#[test]
fn fade_filters_cover_head_and_tail() {
    let c = faded_clip(2_000_000, 8_000_000, 1_000_000, 2_000_000);
    let fades = build_fade_filters(&c);
    assert_eq!(
        fades,
        vec![
            FadeFilter { kind: FadeKind::In, start_us: 0, duration_us: 1_000_000 },
            FadeFilter { kind: FadeKind::Out, start_us: 4_000_000, duration_us: 2_000_000 },
        ],
    );
    let plain = build_fade_filters(&faded_clip(0, 5_000_000, 0, 0));
    assert!(plain.is_empty());
}

#[test]
fn overlong_fades_are_scaled_to_fit() {
    let c = faded_clip(0, 4_000_000, 3_000_000, 3_000_000);
    let (fi, fo) = fit_fades(&c);
    assert_eq!(fi, 2_000_000);
    assert_eq!(fo, 2_000_000);
    let ok = faded_clip(0, 10_000_000, 3_000_000, 3_000_000);
    assert_eq!(fit_fades(&ok), (3_000_000, 3_000_000));
}

#[test]
fn playback_filters_shift_to_the_session_start() {
    let clips = vec![faded_clip(2_000_000, 8_000_000, 1_000_000, 2_000_000)];
    // Starting at 3 s, the fade-in is already underway and is skipped;
    // the fade-out begins at 6 s absolute, 3 s into the session.
    let fades = build_playback_filters(&clips, 3_000_000);
    assert_eq!(
        fades,
        vec![FadeFilter { kind: FadeKind::Out, start_us: 3_000_000, duration_us: 2_000_000 }],
    );
    // Starting at the head keeps both fades at their absolute places.
    let all = build_playback_filters(&clips, 0);
    assert_eq!(
        all,
        vec![
            FadeFilter { kind: FadeKind::In, start_us: 2_000_000, duration_us: 1_000_000 },
            FadeFilter { kind: FadeKind::Out, start_us: 6_000_000, duration_us: 2_000_000 },
        ],
    );
}

#[test]
fn render_plan_keeps_enabled_clips_in_order() {
    let mut off = faded_clip(0, 1_000_000, 0, 0);
    off.video_enabled = false;
    off.audio_enabled = false;
    let clips = vec![faded_clip(1_000_000, 3_000_000, 500_000, 0), off, faded_clip(5_000_000, 6_000_000, 0, 0)];
    let segs = plan_render(&clips).unwrap();
    assert_eq!(segs.len(), 2);
    assert_eq!(segs[0].start_us, 1_000_000);
    assert_eq!(segs[0].duration_us, 2_000_000);
    assert_eq!(
        segs[0].fades,
        vec![FadeFilter { kind: FadeKind::In, start_us: 0, duration_us: 500_000 }],
    );
    assert_eq!(segs[1].start_us, 5_000_000);
    assert_eq!(segs[1].duration_us, 1_000_000);
    assert!(segs[1].fades.is_empty());
}

#[test]
fn render_plan_fits_overlong_fades() {
    // Fades of 3 s each on a 4 s clip are scaled to 2 s each, so the
    // encoded segment's fades never overlap.
    let clips = vec![faded_clip(0, 4_000_000, 3_000_000, 3_000_000)];
    let segs = plan_render(&clips).unwrap();
    assert_eq!(
        segs[0].fades,
        vec![
            FadeFilter { kind: FadeKind::In, start_us: 0, duration_us: 2_000_000 },
            FadeFilter { kind: FadeKind::Out, start_us: 2_000_000, duration_us: 2_000_000 },
        ],
    );
}

#[test]
fn render_plan_reports_empty_and_disabled_timelines() {
    assert_eq!(plan_render(&Vec::new()).unwrap_err(), RenderPlanError::NoClips);
    let mut off = faded_clip(0, 1_000_000, 0, 0);
    off.video_enabled = false;
    off.audio_enabled = false;
    assert_eq!(plan_render(&vec![off]).unwrap_err(), RenderPlanError::NoSegments);
}

#[test]
fn preview_keeps_the_aspect_ratio() {
    assert_eq!(scaled_preview_size(1920, 1080, 640), (640, 360));
    assert_eq!(scaled_preview_size(100, 50, 640), (640, 320));
    // Unknown source dimensions fall back to a 16:9 frame.
    assert_eq!(scaled_preview_size(0, 0, 640), (640, 360));
    assert_eq!(scaled_preview_size(1280, 0, 320), (320, 180));
    // An extreme aspect ratio still yields at least one line, so the
    // frame is never empty and the session can become ready.
    assert_eq!(scaled_preview_size(10000, 1, 640), (640, 1));
}

#[test]
fn thumbnails_sit_in_the_middle_of_their_shares() {
    let times = thumbnail_times(8_000_000, 8);
    assert_eq!(times.len(), 8);
    assert_eq!(times[0], 500_000);
    assert_eq!(times[1], 1_500_000);
    assert_eq!(times[7], 7_500_000);
    assert!(thumbnail_times(1_000_000, 0).is_empty());
}

#[test]
fn waveform_invocation_names_input_and_output() {
    let args = generate_waveform_args("in.mp4", "wave.png");
    assert_eq!(
        args,
        vec![
            "-y",
            "-i",
            "in.mp4",
            "-filter_complex",
            "showwavespic=s=2048x100:colors=white",
            "-frames:v",
            "1",
            "wave.png",
        ],
    );
}

#[test]
fn text_resources_follow_the_language() {
    let en = TextResources::new(Language::En);
    assert_eq!(en.file_menu, "File");
    assert_eq!(en.err_clip_boundary, "Cannot cut at clip boundary");
    let pl = TextResources::new(Language::Pl);
    assert_eq!(pl.file_menu, "Plik");
    assert_eq!(pl.open_project, "Otwórz projekt");
    assert_eq!(pl.timeline, "Oś czasu");
}
