use hiz::planner::{halve, plan, LevelSize, HIZ_MIPMAP_COUNT};

fn sizes(levels: &[LevelSize]) -> Vec<(u32, u32)> {
    levels.iter().map(|l| (l.width, l.height)).collect()
}

#[test]
fn plan_1024_by_768_has_eleven_levels() {
    let levels = plan(1024, 768);
    assert_eq!(
        sizes(&levels),
        vec![
            (1024, 768),
            (512, 384),
            (256, 192),
            (128, 96),
            (64, 48),
            (32, 24),
            (16, 12),
            (8, 6),
            (4, 3),
            (2, 1),
            (1, 1),
        ]
    );
    assert_eq!(levels.len(), 11);
    assert_eq!(levels.len() as u32, HIZ_MIPMAP_COUNT);
}

#[test]
fn plan_8_by_8_has_four_levels() {
    let levels = plan(8, 8);
    assert_eq!(sizes(&levels), vec![(8, 8), (4, 4), (2, 2), (1, 1)]);
}

#[test]
fn plan_of_a_single_pixel_is_a_single_level() {
    assert_eq!(sizes(&plan(1, 1)), vec![(1, 1)]);
}

#[test]
fn plan_is_cut_off_at_the_cap() {
    let levels = plan(4096, 4096);
    assert_eq!(levels.len(), 11);
    assert_eq!(sizes(&levels)[10], (4, 4));
    let widest = plan(u32::MAX, 1);
    assert_eq!(widest.len(), 11);
    assert_eq!(sizes(&widest)[0], (u32::MAX, 1));
    assert_eq!(sizes(&widest)[10], (u32::MAX >> 10, 1));
}

#[test]
fn plan_floors_odd_sizes() {
    assert_eq!(sizes(&plan(5, 3)), vec![(5, 3), (2, 1), (1, 1)]);
    assert_eq!(sizes(&plan(1, 7)), vec![(1, 7), (1, 3), (1, 1)]);
}

#[test]
fn plan_shrinks_from_level_to_level() {
    for (w, h) in [(1u32, 1u32), (2, 1), (3, 1000), (1920, 1080), (65535, 65535), (7, 7)] {
        let levels = plan(w, h);
        assert_eq!((levels[0].width, levels[0].height), (w, h));
        assert!(levels.len() >= 1 && levels.len() <= 11);
        for k in 1..levels.len() {
            let above = levels[k - 1];
            let below = levels[k];
            assert_eq!(below.width, (above.width / 2).max(1));
            assert_eq!(below.height, (above.height / 2).max(1));
            assert!(below.width.max(below.height) < above.width.max(above.height));
            assert_eq!(below.width, (w >> k).max(1));
            assert_eq!(below.height, (h >> k).max(1));
        }
        let expected = (32 - w.max(h).leading_zeros()).min(11) as usize;
        assert_eq!(levels.len(), expected);
        let last = levels[levels.len() - 1];
        assert!(last == LevelSize { width: 1, height: 1 } || levels.len() == 11);
    }
}

#[test]
fn plan_of_an_empty_source_starts_at_the_source() {
    assert_eq!(sizes(&plan(0, 0)), vec![(0, 0), (1, 1)]);
    assert_eq!(sizes(&plan(0, 5)), vec![(0, 5), (1, 2), (1, 1)]);
}

#[test]
fn halve_never_goes_below_one() {
    assert_eq!(halve(0), 1);
    assert_eq!(halve(1), 1);
    assert_eq!(halve(2), 1);
    assert_eq!(halve(3), 1);
    assert_eq!(halve(4), 2);
    assert_eq!(halve(u32::MAX), u32::MAX / 2);
}

#[test]
fn level_size_next_and_single_pixel() {
    let s = LevelSize { width: 9, height: 2 };
    assert_eq!(s.next(), LevelSize { width: 4, height: 1 });
    assert!(!s.is_single_pixel());
    assert!(LevelSize { width: 1, height: 1 }.is_single_pixel());
}
