use hiz::bindings::{
    bind_group_label, build, build_step, is_buildable, Binding, BindingSet, BoundResource,
    DepthSource, ImageView,
};
use hiz::layout::{AccessMode, ResourceBindingLayout, Strategy};
use hiz::planner::plan;
use hiz::pyramid::{access_in_step, DepthPyramid, PyramidLevel};

fn chain(n: u64) -> Vec<ImageView> {
    (0..n).map(|k| ImageView(100 + k)).collect()
}

fn image(binding: u32, id: u64) -> Binding {
    Binding { binding, resource: BoundResource::Image(ImageView(id)) }
}

fn entries(sets: &[BindingSet]) -> Vec<Vec<Binding>> {
    sets.iter().map(|s| s.entries.clone()).collect()
}

#[test]
fn iterative_sets_bind_each_pair_of_levels() {
    let layout = ResourceBindingLayout::new(Strategy::Iterative, 4, false, 16).unwrap();
    let source = DepthSource { view: ImageView(7), width: 8, height: 8 };
    let levels = plan(8, 8);
    let images = chain(4);
    let sets = build(&layout, &source, Some(&images), &levels);
    assert_eq!(
        entries(&sets),
        vec![
            vec![image(0, 7), image(1, 101)],
            vec![image(0, 101), image(1, 102)],
            vec![image(0, 102), image(1, 103)],
        ]
    );
}

#[test]
fn iterative_sets_carry_the_sampler_last() {
    let layout = ResourceBindingLayout::new(Strategy::Iterative, 3, true, 16).unwrap();
    let source = DepthSource { view: ImageView(7), width: 4, height: 4 };
    let sets = build(&layout, &source, Some(&chain(3)), &plan(4, 4));
    let sampler = Binding { binding: 2, resource: BoundResource::Sampler };
    assert_eq!(
        entries(&sets),
        vec![
            vec![image(0, 7), image(1, 101), sampler],
            vec![image(0, 101), image(1, 102), sampler],
        ]
    );
}

#[test]
fn aggregated_set_binds_the_source_and_every_level_below() {
    let layout = ResourceBindingLayout::new(Strategy::Aggregated, 4, true, 16).unwrap();
    let source = DepthSource { view: ImageView(7), width: 8, height: 8 };
    let sets = build(&layout, &source, Some(&chain(6)), &plan(8, 8));
    assert_eq!(
        entries(&sets),
        vec![vec![
            image(0, 7),
            image(1, 101),
            image(2, 102),
            image(3, 103),
            Binding { binding: 4, resource: BoundResource::Sampler },
        ]]
    );
    let plain = ResourceBindingLayout::new(Strategy::Aggregated, 4, false, 16).unwrap();
    let sets = build(&plain, &source, Some(&chain(4)), &plan(8, 8));
    assert_eq!(sets.len(), 1);
    assert_eq!(sets[0].entries.len(), 4);
}

#[test]
fn view_without_a_chain_gets_no_binding_set() {
    let source = DepthSource { view: ImageView(7), width: 8, height: 8 };
    for strategy in [Strategy::Aggregated, Strategy::Iterative] {
        let layout = ResourceBindingLayout::new(strategy, 4, true, 16).unwrap();
        let sets = build(&layout, &source, None, &plan(8, 8));
        assert!(sets.is_empty());
        assert!(!is_buildable(&layout, None, 4));
    }
}

#[test]
fn view_with_a_short_chain_gets_no_binding_set() {
    let source = DepthSource { view: ImageView(7), width: 8, height: 8 };
    for strategy in [Strategy::Aggregated, Strategy::Iterative] {
        let layout = ResourceBindingLayout::new(strategy, 4, false, 16).unwrap();
        assert!(build(&layout, &source, Some(&chain(3)), &plan(8, 8)).is_empty());
        assert!(!is_buildable(&layout, Some(&chain(3)), 4));
        assert!(is_buildable(&layout, Some(&chain(4)), 4));
        assert!(is_buildable(&layout, Some(&chain(9)), 4));
        assert!(!is_buildable(&layout, Some(&chain(9)), 0));
        assert!(build(&layout, &source, Some(&chain(9)), &Vec::new()).is_empty());
    }
}

#[test]
fn aggregated_layout_serves_pyramids_of_no_more_levels() {
    let layout = ResourceBindingLayout::new(Strategy::Aggregated, 4, false, 16).unwrap();
    let small = DepthSource { view: ImageView(7), width: 4, height: 4 };
    let sets = build(&layout, &small, Some(&chain(8)), &plan(4, 4));
    assert_eq!(
        entries(&sets),
        vec![vec![image(0, 7), image(1, 101), image(2, 102), image(3, 103)]]
    );
    assert!(is_buildable(&layout, Some(&chain(8)), 3));
    assert!(is_buildable(&layout, Some(&chain(4)), 3));
    assert!(is_buildable(&layout, Some(&chain(4)), 1));
    assert!(!is_buildable(&layout, Some(&chain(3)), 3));
    assert!(build(&layout, &small, Some(&chain(3)), &plan(4, 4)).is_empty());
    let large = DepthSource { view: ImageView(7), width: 16, height: 16 };
    assert!(build(&layout, &large, Some(&chain(8)), &plan(16, 16)).is_empty());
    assert!(!is_buildable(&layout, Some(&chain(8)), 5));
    let iterative = ResourceBindingLayout::new(Strategy::Iterative, 4, false, 16).unwrap();
    assert_eq!(build(&iterative, &small, Some(&chain(8)), &plan(4, 4)).len(), 2);
    assert_eq!(build(&iterative, &large, Some(&chain(8)), &plan(16, 16)).len(), 4);
    assert_eq!(bind_group_label(), "hiz_mipmap_bindgroups");
}

#[test]
fn single_level_pyramid_takes_no_iterative_step() {
    let source = DepthSource { view: ImageView(7), width: 1, height: 1 };
    let iterative = ResourceBindingLayout::new(Strategy::Iterative, 1, false, 16).unwrap();
    assert!(build(&iterative, &source, Some(&chain(1)), &plan(1, 1)).is_empty());
    let aggregated = ResourceBindingLayout::new(Strategy::Aggregated, 1, false, 16).unwrap();
    let sets = build(&aggregated, &source, Some(&chain(1)), &plan(1, 1));
    assert_eq!(entries(&sets), vec![vec![image(0, 7)]]);
}

#[test]
fn build_step_makes_one_set() {
    let layout = ResourceBindingLayout::new(Strategy::Iterative, 4, false, 16).unwrap();
    let source = DepthSource { view: ImageView(7), width: 8, height: 8 };
    let images = chain(4);
    assert_eq!(build_step(&layout, &source, &images, 0).entries, vec![image(0, 7), image(1, 101)]);
    assert_eq!(build_step(&layout, &source, &images, 2).entries, vec![image(0, 102), image(1, 103)]);
}

#[test]
fn building_twice_gives_the_same_sets() {
    let layout = ResourceBindingLayout::new(Strategy::Iterative, 11, true, 16).unwrap();
    let source = DepthSource { view: ImageView(7), width: 1024, height: 768 };
    let images = chain(11);
    let levels = plan(1024, 768);
    let once = build(&layout, &source, Some(&images), &levels);
    let twice = build(&layout, &source, Some(&images), &levels);
    assert_eq!(once.len(), 10);
    assert_eq!(entries(&once), entries(&twice));
}

#[test]
fn pyramid_pairs_sizes_with_images() {
    let source = DepthSource { view: ImageView(7), width: 8, height: 4 };
    let pyramid = DepthPyramid::assemble(source, &chain(5)).unwrap();
    assert_eq!(pyramid.source(), source);
    assert_eq!(pyramid.level_count(), 4);
    assert_eq!(pyramid.sizes().clone(), plan(8, 4));
    assert_eq!(pyramid.level(0), Some(PyramidLevel { width: 8, height: 4, view: ImageView(7) }));
    assert_eq!(pyramid.level(1), Some(PyramidLevel { width: 4, height: 2, view: ImageView(101) }));
    assert_eq!(pyramid.level(3), Some(PyramidLevel { width: 1, height: 1, view: ImageView(103) }));
    assert_eq!(pyramid.level(4), None);
    assert!(DepthPyramid::assemble(source, &chain(3)).is_none());
    assert!(DepthPyramid::assemble(source, &chain(4)).is_some());
}

#[test]
fn levels_are_read_then_written() {
    assert_eq!(access_in_step(Strategy::Iterative, 2, 2), Some(AccessMode::ReadOnly));
    assert_eq!(access_in_step(Strategy::Iterative, 2, 3), Some(AccessMode::WriteOnly));
    assert_eq!(access_in_step(Strategy::Iterative, 2, 4), None);
    assert_eq!(access_in_step(Strategy::Iterative, 2, 1), None);
    assert_eq!(access_in_step(Strategy::Aggregated, 0, 0), Some(AccessMode::ReadOnly));
    assert_eq!(access_in_step(Strategy::Aggregated, 0, 1), Some(AccessMode::WriteOnly));
    assert_eq!(access_in_step(Strategy::Aggregated, 0, 5), Some(AccessMode::WriteOnly));
    assert_eq!(access_in_step(Strategy::Aggregated, 0, 6), Some(AccessMode::ReadWrite));
    assert_eq!(access_in_step(Strategy::Aggregated, 0, 7), Some(AccessMode::WriteOnly));
    assert_eq!(access_in_step(Strategy::Aggregated, 0, 10), Some(AccessMode::WriteOnly));
    assert_eq!(access_in_step(Strategy::Aggregated, 1, 0), None);
    assert_eq!(access_in_step(Strategy::Iterative, 0, 6), None);
}
