use aitios_surf::{SamplingError, Surface, SurfaceBuilder, Surfel, SurfelSampling, DEFAULT_MIN_DISTANCE_BITS};

#[derive(Clone, Debug, PartialEq)]
struct Props {
    prop: i32,
}

fn circle_points(count: u32) -> Vec<(i64, i64)> {
    (0..count).map(|i| (i as i64, -(i as i64) * 2)).collect()
}

#[test]
fn default_strategy_is_minimum_distance_point_one() {
    let builder: SurfaceBuilder<Surfel<(i64, i64), Props>> = SurfaceBuilder::new();
    assert_eq!(DEFAULT_MIN_DISTANCE_BITS, 0.1f32.to_bits());
    assert_eq!(
        builder.sampling_strategy(),
        SurfelSampling::MinimumDistance(0.1f32.to_bits())
    );
    assert!(builder.samples().is_empty());
}

#[test]
fn added_samples_keep_count_and_order() {
    let points = circle_points(100);
    let surface: Surface<(i64, i64), ()> = SurfaceBuilder::new()
        .add_samples(points.clone())
        .build(());
    assert_eq!(surface.len(), 100);
    assert_eq!(surface.samples(), &points);
    for (i, p) in points.iter().enumerate() {
        assert_eq!(surface.get(i), Some(p));
    }
    assert_eq!(surface.get(100), None);
}

#[test]
fn add_samples_appends_after_earlier_samples() {
    let surface: Surface<u32, ()> = SurfaceBuilder::new()
        .add_samples(vec![3, 1])
        .add_samples(vec![])
        .add_samples(vec![4, 1, 5])
        .build(());
    assert_eq!(surface.samples(), &vec![3, 1, 4, 1, 5]);
}

#[test]
fn empty_builder_builds_empty_surface() {
    let surface: Surface<u32, u8> = SurfaceBuilder::new().build(7);
    assert!(surface.is_empty());
    assert_eq!(surface.len(), 0);
    assert_eq!(surface.get(0), None);
    assert_eq!(*surface.spatial_index(), 7);
}

#[test]
fn sampled_vertices_get_cloned_payload() {
    let proto = Props { prop: -1 };
    let vertices = circle_points(10);
    let builder = SurfaceBuilder::new()
        .add_samples(vec![Surfel::new((7, 7), Props { prop: 3 })])
        .sample_triangles(vertices.clone(), &proto)
        .unwrap();
    let surface = builder.build(());
    assert_eq!(surface.len(), 11);
    assert_eq!(*surface.get(0).unwrap().vertex(), (7, 7));
    assert_eq!(surface.get(0).unwrap().data().prop, 3);
    for (i, v) in vertices.iter().enumerate() {
        let surfel = surface.get(i + 1).unwrap();
        assert_eq!(surfel.vertex(), v);
        assert_eq!(surfel.data(), &Props { prop: -1 });
    }
}

#[test]
fn payloads_are_independently_mutable() {
    let proto = Props { prop: -1 };
    let mut surface = SurfaceBuilder::new()
        .sample_triangles(circle_points(5), &proto)
        .unwrap()
        .build(());
    surface.data_mut(2).prop = 42;
    assert_eq!(surface.get(2).unwrap().data().prop, 42);
    assert_eq!(*surface.get(2).unwrap().vertex(), (2, -4));
    for i in [0, 1, 3, 4] {
        assert_eq!(surface.get(i).unwrap().data().prop, -1);
    }
    assert_eq!(proto, Props { prop: -1 });
}

#[test]
fn per_sqr_unit_is_not_implemented() {
    let result = SurfaceBuilder::new()
        .add_samples(vec![Surfel::new(0u8, Props { prop: 1 })])
        .sampling(SurfelSampling::PerSqrUnit(2.0f32.to_bits()))
        .sample_triangles(vec![1u8, 2u8], &Props { prop: -1 });
    assert!(matches!(result, Err(SamplingError::NotImplemented)));
    assert_eq!(
        SurfelSampling::PerSqrUnit(5).min_distance(),
        Err(SamplingError::NotImplemented)
    );
}

#[test]
fn sampling_replaces_strategy_only() {
    let builder = SurfaceBuilder::new()
        .add_samples(vec![Surfel::new(9u8, Props { prop: 0 })])
        .sampling(SurfelSampling::MinimumDistance(0.25f32.to_bits()));
    assert_eq!(
        builder.sampling_strategy(),
        SurfelSampling::MinimumDistance(0.25f32.to_bits())
    );
    assert_eq!(builder.samples().len(), 1);
    assert_eq!(
        builder.sampling_strategy().min_distance(),
        Ok(0.25f32.to_bits())
    );
}

#[test]
fn surfel_accessors() {
    let mut surfel = Surfel::new([1, 2, 3], String::from("a"));
    assert_eq!(surfel.vertex(), &[1, 2, 3]);
    assert_eq!(surfel.data(), "a");
    surfel.data_mut().push('b');
    assert_eq!(surfel.data(), "ab");
    assert_eq!(surfel.vertex(), &[1, 2, 3]);
}
