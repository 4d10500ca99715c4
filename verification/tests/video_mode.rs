use xlib_programming_rust::video_mode::{best_mode_index, get_best_video_mode, VideoMode};

fn mode(w: u16, h: u16) -> Option<VideoMode> {
    Some(VideoMode { hdisplay: w, vdisplay: h })
}

#[test]
fn picks_nearest_mode_and_adopts_its_size() {
    let modes = vec![mode(640, 480), mode(1920, 1080), None, mode(1280, 1024)];
    let (mut w, mut h) = (1900, 1000);
    assert_eq!(get_best_video_mode(1, &modes, &mut w, &mut h), Some(1));
    assert_eq!((w, h), (1920, 1080));
}

#[test]
fn failed_query_chooses_nothing() {
    let modes = vec![mode(640, 480)];
    let (mut w, mut h) = (800, 600);
    assert_eq!(get_best_video_mode(0, &modes, &mut w, &mut h), None);
    assert_eq!((w, h), (800, 600));
}

#[test]
fn first_of_equally_near_modes_wins() {
    // both at squared distance 100
    let modes = vec![mode(790, 600), mode(810, 600), mode(800, 610)];
    assert_eq!(best_mode_index(800, 600, &modes), 0);
    let modes = vec![mode(1024, 768), mode(810, 600), mode(790, 600)];
    assert_eq!(best_mode_index(800, 600, &modes), 1);
}

#[test]
fn absent_modes_are_skipped() {
    let modes = vec![None, None, mode(1024, 768)];
    let (mut w, mut h) = (1, 1);
    assert_eq!(get_best_video_mode(1, &modes, &mut w, &mut h), Some(2));
    assert_eq!((w, h), (1024, 768));
}

#[test]
fn no_present_mode_falls_back_to_index_zero() {
    let modes: Vec<Option<VideoMode>> = vec![None, None];
    let (mut w, mut h) = (640, 480);
    assert_eq!(get_best_video_mode(1, &modes, &mut w, &mut h), Some(0));
    assert_eq!((w, h), (640, 480));
}

#[test]
fn exact_match_is_chosen() {
    let modes = vec![mode(800, 600), mode(1024, 768), mode(1280, 720)];
    assert_eq!(best_mode_index(1024, 768, &modes), 1);
}

#[test]
fn adopting_the_chosen_mode_is_stable() {
    let modes = vec![mode(1280, 1024), mode(1920, 1080), mode(1920, 1080), mode(640, 480)];
    let (mut w, mut h) = (1800, 1100);
    let first = get_best_video_mode(1, &modes, &mut w, &mut h);
    let size = (w, h);
    let second = get_best_video_mode(1, &modes, &mut w, &mut h);
    assert_eq!(first, Some(1));
    assert_eq!(first, second);
    assert_eq!((w, h), size);
}

#[test]
fn far_sizes_within_the_32_bit_range() {
    // 46340^2 + 0 fits below i32::MAX
    let modes = vec![mode(0, 0), mode(100, 0)];
    assert_eq!(best_mode_index(46340, 0, &modes), 1);
    assert_eq!(best_mode_index(-46000, 0, &modes), 0);
}

#[test]
fn appending_a_farther_or_absent_mode_keeps_the_choice() {
    let modes = vec![mode(640, 480), mode(1280, 720), mode(1920, 1080)];
    let (mut w, mut h) = (1300, 700);
    let first = get_best_video_mode(1, &modes, &mut w, &mut h);
    for extra in [None, mode(1320, 720), mode(1280, 740), mode(4000, 3000)] {
        let mut longer = modes.clone();
        longer.push(extra);
        let (mut w2, mut h2) = (1300, 700);
        assert_eq!(get_best_video_mode(1, &longer, &mut w2, &mut h2), first);
        assert_eq!((w2, h2), (w, h));
    }
}
