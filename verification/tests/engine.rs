//! End-to-end behavior of the composition, packing, source-resolution and
//! render-loop machinery, exercised on concrete values.

use clay::background::GradientBackground;
use clay::instance::{Instance, KeyCache};
use clay::material::{Diffuse, Luminous, Material};
use clay::pack::Pack;
use clay::process::postproc::{create_default_postproc, create_postproc, LogFilter};
use clay::process::render::create_renderer;
use clay::scene::{Scene, SceneObject};
use clay::select::{MaterialCombine, MaterialSelect, ShapeSelect};
use clay::shape::{HalfSpace, Sphere};
use clay::source::{source, SourceTree};
use clay::view::{KernelArgs, ProjectionView, Push, FOV_ONE};
use clay::Error;

fn bits(x: f32) -> u32 {
    x.to_bits()
}

fn diffuse_green() -> Diffuse {
    Diffuse { red: bits(0.4), green: bits(1.0), blue: bits(0.4) }
}

fn unit_sphere() -> Sphere {
    Sphere { cx: bits(0.0), cy: bits(0.0), cz: bits(0.0), radius: bits(1.0) }
}

fn gradient() -> GradientBackground {
    GradientBackground {
        top_red: bits(0.2),
        top_green: bits(0.2),
        top_blue: bits(0.9),
        bottom_red: bits(0.9),
        bottom_green: bits(0.9),
        bottom_blue: bits(0.9),
    }
}

fn pack_alone<P: Pack>(v: &P) -> (Vec<i32>, Vec<u32>) {
    let mut ints = vec![0i32; P::size_int()];
    let mut floats = vec![0u32; P::size_float()];
    v.pack_to(&mut ints, 0, &mut floats, 0);
    (ints, floats)
}

#[test]
fn pack_writes_exactly_declared_slots() {
    // Pack into oversized buffers at an offset: exactly the declared slot
    // counts are written, everything else is untouched.
    let d = diffuse_green();
    assert_eq!(Diffuse::size_int(), 0);
    assert_eq!(Diffuse::size_float(), 3);
    let mut ints = vec![7i32; 4];
    let mut floats = vec![9u32; 6];
    d.pack_to(&mut ints, 1, &mut floats, 2);
    assert_eq!(ints, vec![7, 7, 7, 7]);
    assert_eq!(floats, vec![9, 9, bits(0.4), bits(1.0), bits(0.4), 9]);

    let s = unit_sphere();
    assert_eq!(Sphere::size_float(), 4);
    let mut si = vec![3i32; 2];
    let mut sf = vec![5u32; 6];
    s.pack_to(&mut si, 0, &mut sf, 1);
    assert_eq!(si, vec![3, 3]);
    assert_eq!(sf, vec![5, bits(0.0), bits(0.0), bits(0.0), bits(1.0), 5]);

    let l = Luminous {};
    assert_eq!(Luminous::size_int(), 0);
    assert_eq!(Luminous::size_float(), 0);
    let mut li = vec![1i32; 1];
    let mut lf = vec![2u32; 1];
    l.pack_to(&mut li, 0, &mut lf, 0);
    assert_eq!(li, vec![1]);
    assert_eq!(lf, vec![2]);

    let h = HalfSpace { nx: bits(0.0), ny: bits(1.0), nz: bits(0.0), offset: bits(2.0) };
    let (hi, hf) = pack_alone(&h);
    assert_eq!(hi, Vec::<i32>::new());
    assert_eq!(hf, vec![bits(0.0), bits(1.0), bits(0.0), bits(2.0)]);

    let g = gradient();
    assert_eq!(GradientBackground::size_float(), 6);
    let (gi, gf) = pack_alone(&g);
    assert_eq!(gi, Vec::<i32>::new());
    assert_eq!(gf.len(), 6);

    let f = LogFilter { low: bits(-2.0), high: bits(2.0) };
    let (fi, ff) = pack_alone(&f);
    assert_eq!(fi, Vec::<i32>::new());
    assert_eq!(ff, vec![bits(-2.0), bits(2.0)]);
}

#[test]
fn variant_packs_discriminant_then_arm_payload() {
    // Arm 1 (diffuse): discriminant 1, then exactly the bare arm's payload.
    let bare = pack_alone(&diffuse_green());
    let v = MaterialSelect::Diffuse(diffuse_green());
    let (vi, vf) = pack_alone(&v);
    assert_eq!(MaterialSelect::size_int(), 1);
    assert_eq!(MaterialSelect::size_float(), 3);
    assert_eq!(vi, vec![1]);
    assert_eq!(vf, bare.1);

    // Arm 0 (luminous): discriminant 0, payload padded with zeros to the
    // variant's fixed stride.
    let w = MaterialSelect::Luminous(Luminous {});
    let (wi, wf) = pack_alone(&w);
    assert_eq!(wi, vec![0]);
    assert_eq!(wf, vec![0, 0, 0]);

    let sphere = ShapeSelect::Sphere(unit_sphere());
    let (si, sf) = pack_alone(&sphere);
    assert_eq!(si, vec![0]);
    assert_eq!(sf, pack_alone(&unit_sphere()).1);

    let half = HalfSpace { nx: bits(1.0), ny: bits(0.0), nz: bits(0.0), offset: bits(3.0) };
    let hs = ShapeSelect::HalfSpace(half.clone());
    let (hi, hf) = pack_alone(&hs);
    assert_eq!(hi, vec![1]);
    assert_eq!(hf, pack_alone(&half).1);
}

#[test]
fn combination_packs_weight_before_each_member() {
    let c = MaterialCombine {
        first: Luminous {},
        first_weight: bits(0.95),
        second: diffuse_green(),
        second_weight: bits(0.05),
    };
    assert_eq!(MaterialCombine::size_float(), 5);
    let (ci, cf) = pack_alone(&c);
    assert_eq!(ci, Vec::<i32>::new());
    assert_eq!(cf[0], bits(0.95));
    assert_eq!(cf[1], bits(0.05));
    assert_eq!(&cf[2..], &pack_alone(&diffuse_green()).1[..]);

    // The device computes the aggregate as the weight-scaled sum over these
    // slots; on the green channel with member outputs 1.0 (luminous) and
    // 1.0 (diffuse tint), that is 0.95 * 1.0 + 0.05 * 1.0.
    let w0 = f32::from_bits(cf[0]);
    let w1 = f32::from_bits(cf[1]);
    let green = f32::from_bits(cf[3]);
    let aggregate = w0 * 1.0 + w1 * green;
    assert!((aggregate - (0.95 * 1.0 + 0.05 * 1.0)).abs() < 1e-6);
}

#[test]
fn materials_report_names_and_brightness() {
    assert_eq!(Luminous::inst_name(), b"luminous".to_vec());
    assert_eq!(Diffuse::inst_name(), b"diffuse".to_vec());
    assert_eq!(MaterialSelect::inst_name(), b"select_luminous_diffuse".to_vec());
    assert_eq!(ShapeSelect::inst_name(), b"select_sphere_half_space".to_vec());
    assert_eq!(Luminous {}.brightness(), 1.0f64.to_bits());
    assert_eq!(diffuse_green().brightness(), 0.0f64.to_bits());
}

#[test]
fn source_contributions_are_emitted_once_per_unit() {
    let mut cache = KeyCache::new();
    let first = MaterialSelect::source(&mut cache);
    assert!(!first.is_empty());
    // A second call over the same translation unit emits nothing.
    let again = MaterialSelect::source(&mut cache);
    assert!(again.is_empty());
    // The members were already covered by the composed emission.
    assert!(Diffuse::source(&mut cache).is_empty());
    assert!(Luminous::source(&mut cache).is_empty());
    // A contribution not yet covered still emits.
    assert!(!ShapeSelect::source(&mut cache).is_empty());
}

#[test]
fn resolution_expands_imports_and_reports_missing_paths() {
    let mut tree = SourceTree::new();
    tree.register(b"a.h".to_vec(), b"alpha\n".to_vec()).unwrap();
    tree.register(b"main.c".to_vec(), b"#import <a.h>\nbody\n".to_vec()).unwrap();
    let out = tree.resolve(&b"main.c".to_vec()).unwrap();
    assert_eq!(out, b"alpha\nbody\n".to_vec());

    // An unresolved path is reported with the importing file.
    let mut bad = SourceTree::new();
    bad.register(b"main.c".to_vec(), b"#import <gone.h>\n".to_vec()).unwrap();
    match bad.resolve(&b"main.c".to_vec()) {
        Err(Error::UnresolvedImport { path, importer }) => {
            assert_eq!(path, b"gone.h".to_vec());
            assert_eq!(importer, b"main.c".to_vec());
        },
        other => panic!("expected an unresolved import, got {:?}", other.is_ok()),
    }
}

#[test]
fn resolution_is_idempotent_and_deduplicates_diamonds() {
    // a and b both import c: c's content appears exactly once, at its first
    // occurrence.
    let mut tree = SourceTree::new();
    tree.register(b"c.h".to_vec(), b"C\n".to_vec()).unwrap();
    tree.register(b"a.h".to_vec(), b"#import <c.h>\nA\n".to_vec()).unwrap();
    tree.register(b"b.h".to_vec(), b"#import <c.h>\nB\n".to_vec()).unwrap();
    tree.register(b"main.c".to_vec(), b"#import <a.h>\n#import <b.h>\n".to_vec()).unwrap();
    let first = tree.resolve(&b"main.c".to_vec()).unwrap();
    assert_eq!(first, b"C\nA\nB\n".to_vec());

    // Resolving the same entry twice yields byte-identical output.
    let second = tree.resolve(&b"main.c".to_vec()).unwrap();
    assert_eq!(first, second);

    // A file importing itself is cut by the first-occurrence rule.
    let mut looped = SourceTree::new();
    looped.register(b"l.h".to_vec(), b"#import <l.h>\nL\n".to_vec()).unwrap();
    assert_eq!(looped.resolve(&b"l.h".to_vec()).unwrap(), b"L\n".to_vec());
}

#[test]
fn duplicate_registration_is_refused() {
    let mut tree = SourceTree::new();
    tree.register(b"x.h".to_vec(), b"one\n".to_vec()).unwrap();
    match tree.register(b"x.h".to_vec(), b"two\n".to_vec()) {
        Err(Error::DuplicatePath { path }) => assert_eq!(path, b"x.h".to_vec()),
        _ => panic!("expected a duplicate-path refusal"),
    }
    // The first registration still wins.
    let out = tree.resolve(&b"x.h".to_vec()).unwrap();
    assert_eq!(out, b"one\n".to_vec());
}

#[test]
fn builtin_source_tree_resolves_its_own_headers() {
    let tree = source();
    let out = tree.resolve(&b"clay/material/luminous.h".to_vec()).unwrap();
    let text = String::from_utf8(out).unwrap();
    assert!(text.starts_with("typedef float3 color3;\n"));
    assert!(text.contains("luminous_emit"));
    assert!(!text.contains("#import"));
}

#[test]
fn projection_view_keeps_fov_across_update() {
    let ident = [
        bits(1.0), bits(0.0), bits(0.0),
        bits(0.0), bits(1.0), bits(0.0),
        bits(0.0), bits(0.0), bits(1.0),
    ];
    let mut view = ProjectionView::new([bits(0.0), bits(0.0), bits(-2.0)], ident);
    assert_eq!(view.fov, FOV_ONE);
    assert_eq!(f32::from_bits(view.fov), 1.0);
    view.update([bits(1.0), bits(0.0), bits(-2.0)], ident);
    assert_eq!(view.fov, FOV_ONE);
    assert_eq!(view.pos[0], bits(1.0));
}

#[test]
fn view_binds_three_arguments_with_padded_rotation() {
    let ori = [
        bits(1.0), bits(2.0), bits(3.0),
        bits(4.0), bits(5.0), bits(6.0),
        bits(7.0), bits(8.0), bits(9.0),
    ];
    let view = ProjectionView::new([bits(0.5), bits(0.25), bits(0.125)], ori);
    assert_eq!(ProjectionView::args_count(), 3);

    // args_def declares the three slots with placeholder widths 3, 16 and 1.
    let mut args = KernelArgs::with_len(0);
    ProjectionView::args_def(&mut args);
    assert_eq!(args.len(), 3);
    assert_eq!(args.get(0).as_ref().unwrap().len(), 3);
    assert_eq!(args.get(1).as_ref().unwrap().len(), 16);
    assert_eq!(args.get(2).as_ref().unwrap().len(), 1);

    view.args_set(0, &mut args);
    assert_eq!(
        args.get(0).as_ref().unwrap(),
        &vec![bits(0.5), bits(0.25), bits(0.125)]
    );
    // Entry groups land at words 0..3, 4..7 and 8..11; every other word is zero.
    let expected_map = vec![
        bits(1.0), bits(2.0), bits(3.0), 0,
        bits(4.0), bits(5.0), bits(6.0), 0,
        bits(7.0), bits(8.0), bits(9.0), 0,
        0, 0, 0, 0,
    ];
    assert_eq!(args.get(1).as_ref().unwrap(), &expected_map);
    assert_eq!(args.get(2).as_ref().unwrap(), &vec![view.fov]);
}

#[test]
fn scene_packs_count_depth_background_then_objects() {
    let mut scene: Scene<ShapeSelect, MaterialSelect, GradientBackground> = Scene::new(gradient());
    scene.add(SceneObject {
        shape: ShapeSelect::Sphere(unit_sphere()),
        material: MaterialSelect::Diffuse(diffuse_green()),
    });
    assert_eq!(scene.object_count(), 1);
    let (ints, floats) = scene.pack();
    // [object count][max depth][shape discriminant][material discriminant]
    assert_eq!(ints, vec![1, 4, 0, 1]);
    let mut expected_floats = pack_alone(&gradient()).1;
    expected_floats.extend(pack_alone(&ShapeSelect::Sphere(unit_sphere())).1);
    expected_floats.extend(pack_alone(&MaterialSelect::Diffuse(diffuse_green())).1);
    assert_eq!(floats, expected_floats);
}

#[test]
fn scene_pack_changes_only_through_explicit_mutation() {
    let mut scene: Scene<ShapeSelect, MaterialSelect, GradientBackground> = Scene::new(gradient());
    scene.add(SceneObject {
        shape: ShapeSelect::Sphere(unit_sphere()),
        material: MaterialSelect::Luminous(Luminous {}),
    });
    let a = scene.pack();
    let b = scene.pack();
    assert_eq!(a.0, b.0);
    assert_eq!(a.1, b.1);
    scene.set_max_depth(7);
    let c = scene.pack();
    assert_eq!(c.0[1], 7);
    let removed = scene.remove(0);
    match removed.shape {
        ShapeSelect::Sphere(_) => {},
        _ => panic!("removed the wrong object"),
    }
    let d = scene.pack();
    assert_eq!(d.0, vec![0, 7]);
}

fn demo_scene() -> Scene<ShapeSelect, MaterialSelect, GradientBackground> {
    let mut scene = Scene::new(gradient());
    scene.add(SceneObject {
        shape: ShapeSelect::Sphere(unit_sphere()),
        material: MaterialSelect::Diffuse(diffuse_green()),
    });
    scene
}

fn demo_view() -> ProjectionView {
    let ident = [
        bits(1.0), bits(0.0), bits(0.0),
        bits(0.0), bits(1.0), bits(0.0),
        bits(0.0), bits(0.0), bits(1.0),
    ];
    ProjectionView::new([bits(0.0), bits(0.0), bits(-2.0)], ident)
}

#[test]
fn renderer_build_composes_a_deduplicated_kernel_unit() {
    let builder = create_renderer::<ShapeSelect, MaterialSelect, GradientBackground,
        ProjectionView>();
    let worker = builder.build(&demo_scene(), &demo_view(), 4, 2).unwrap();
    let text = String::from_utf8(worker.kernel_source.clone()).unwrap();
    // The shared core header is imported by every capability header, yet is
    // emitted exactly once, at its first occurrence.
    assert_eq!(text.matches("typedef float3 color3;").count(), 1);
    assert_eq!(text.matches("sphere_hit").count(), 1);
    assert_eq!(text.matches("half_space_hit").count(), 1);
    assert_eq!(text.matches("luminous_emit").count(), 1);
    assert_eq!(text.matches("diffuse_scatter").count(), 1);
    assert_eq!(text.matches("gradient_shade").count(), 1);
    assert_eq!(text.matches("proj_view_dir").count(), 1);
    assert!(text.ends_with("__global float *acc);\n"));
    assert!(!text.contains("#import"));
    // Scene buffers and fresh accumulation state.
    assert_eq!(worker.scene_ints, vec![1, 4, 0, 1]);
    assert_eq!(worker.data.len(), 4 * 2 * 3);
    assert_eq!(worker.data.sample_count(), 0);
    assert!(!worker.data.is_stale());
}

#[test]
fn renderer_build_is_deterministic() {
    let a = create_renderer::<ShapeSelect, MaterialSelect, GradientBackground, ProjectionView>()
        .build(&demo_scene(), &demo_view(), 4, 2)
        .unwrap();
    let b = create_renderer::<ShapeSelect, MaterialSelect, GradientBackground, ProjectionView>()
        .build(&demo_scene(), &demo_view(), 4, 2)
        .unwrap();
    assert_eq!(a.kernel_source, b.kernel_source);
    assert_eq!(a.scene_ints, b.scene_ints);
    assert_eq!(a.scene_floats, b.scene_floats);
}

#[test]
fn run_for_zero_budget_completes_no_dispatch() {
    let builder = create_renderer::<ShapeSelect, MaterialSelect, GradientBackground,
        ProjectionView>();
    let mut worker = builder.build(&demo_scene(), &demo_view(), 2, 2).unwrap();
    let before = worker.data.buffer().clone();
    let done = worker.run_for(0, &vec![5, 5, 5], false).unwrap();
    assert_eq!(done, 0);
    assert_eq!(worker.data.sample_count(), 0);
    assert_eq!(*worker.data.buffer(), before);
    assert!(!worker.data.is_stale());
}

#[test]
fn run_for_counts_whole_dispatches_within_budget() {
    let builder = create_renderer::<ShapeSelect, MaterialSelect, GradientBackground,
        ProjectionView>();
    let mut worker = builder.build(&demo_scene(), &demo_view(), 2, 2).unwrap();
    // 0 < 16, 5 < 16, 10 < 16, 15 < 16, then 20 >= 16: four dispatches, the
    // fourth overruns the budget but is never cancelled mid-flight.
    let done = worker.run_for(16, &vec![5, 5, 5, 5, 5], false).unwrap();
    assert_eq!(done, 4);
    assert_eq!(worker.data.sample_count(), 4);
}

#[test]
fn clear_zeroes_cells_and_counter_and_next_budget_dispatches() {
    let builder = create_renderer::<ShapeSelect, MaterialSelect, GradientBackground,
        ProjectionView>();
    let mut worker = builder.build(&demo_scene(), &demo_view(), 2, 2).unwrap();
    worker.run_for(10, &vec![3, 3, 3], false).unwrap();
    let len = worker.data.len();
    worker.data_mut().sync_buffer(vec![0x3F000000; len]);
    worker.data_mut().clear();
    assert_eq!(worker.data.sample_count(), 0);
    assert!(worker.data.buffer().iter().all(|&c| c == 0));
    let done = worker.run_for(1, &vec![7], false).unwrap();
    assert!(done >= 1);
}

#[test]
fn update_data_repushes_without_clearing() {
    let builder = create_renderer::<ShapeSelect, MaterialSelect, GradientBackground,
        ProjectionView>();
    let mut worker = builder.build(&demo_scene(), &demo_view(), 2, 2).unwrap();
    worker.run_for(10, &vec![2, 2], false).unwrap();
    let len = worker.data.len();
    worker.data_mut().sync_buffer(vec![0x3E800000; len]);
    let cells_before = worker.data.buffer().clone();
    let samples_before = worker.data.sample_count();

    // Move the camera and re-push: prior samples stay in the buffer.
    let mut view = demo_view();
    view.update([bits(1.0), bits(0.0), bits(-2.0)], view.ori);
    worker.update_data(&view);
    assert_eq!(*worker.data.buffer(), cells_before);
    assert_eq!(worker.data.sample_count(), samples_before);
    assert!(worker.data.is_stale());

    // Rendering over stale samples fails loudly without an acknowledgment.
    match worker.run_for(10, &vec![2], false) {
        Err(Error::StaleAccumulation) => {},
        _ => panic!("expected a stale-accumulation refusal"),
    }
    assert_eq!(worker.data.sample_count(), samples_before);

    // Explicit acknowledgment continues accumulating anyway.
    let done = worker.run_for(10, &vec![2], true).unwrap();
    assert_eq!(done, 1);

    // The prescribed path: clear, then render.
    worker.data_mut().clear();
    assert_eq!(worker.data.sample_count(), 0);
    let done = worker.run_for(10, &vec![2, 2], false).unwrap();
    assert_eq!(done, 2);
}

#[test]
fn postproc_ingests_and_filters_deterministically() {
    let collector = create_default_postproc();
    let mut post = collector.collect(&clay::process::postproc::IdentityFilter {}, 2, 2).unwrap();
    let text = String::from_utf8(post.kernel_source.clone()).unwrap();
    assert_eq!(text.matches("filter_identity").count(), 1);
    assert_eq!(text.matches("typedef float3 color3;").count(), 1);
    assert!(!text.contains("#import"));
    assert_eq!(post.params_float, Vec::<u32>::new());

    let builder = create_renderer::<ShapeSelect, MaterialSelect, GradientBackground,
        ProjectionView>();
    let mut worker = builder.build(&demo_scene(), &demo_view(), 2, 2).unwrap();
    worker.run_for(4, &vec![1, 1], false).unwrap();
    let len = worker.data.len();
    worker.data_mut().sync_buffer(vec![bits(0.5); len]);

    post.process_one(worker.data()).unwrap();
    assert_eq!(post.working, vec![bits(0.5); len]);
    assert_eq!(post.collected_samples, 2);

    // The identity filter's device output for a constant normalized buffer.
    let shaded = vec![64u8; len];
    post.make_image(shaded.clone()).unwrap();
    assert_eq!(*post.image(), shaded);
}

#[test]
fn postproc_refuses_mismatched_buffers() {
    let collector = create_postproc::<LogFilter>();
    let mut post = collector.collect(&LogFilter { low: bits(-1.0), high: bits(1.0) }, 2, 2)
        .unwrap();
    assert_eq!(post.params_float, vec![bits(-1.0), bits(1.0)]);

    let small = clay::process::render::RenderData::new(3);
    match post.process_one(&small) {
        Err(Error::BufferSizeMismatch { expected, actual }) => {
            assert_eq!(expected, 12);
            assert_eq!(actual, 3);
        },
        _ => panic!("expected a size mismatch"),
    }
    match post.make_image(vec![0u8; 5]) {
        Err(Error::BufferSizeMismatch { expected, actual }) => {
            assert_eq!(expected, 12);
            assert_eq!(actual, 5);
        },
        _ => panic!("expected a size mismatch"),
    }
}

#[test]
fn end_to_end_scene_is_reproducible() {
    // One unit sphere with a diffuse (0.4, 1.0, 0.4) material over a gradient
    // background, rendered for a fixed budget from a fixed view, then
    // post-processed with the identity filter: with the device modeled as a
    // fixed read-back, every host-visible artifact is byte-reproducible.
    let run = || {
        let builder = create_renderer::<ShapeSelect, MaterialSelect, GradientBackground,
            ProjectionView>();
        let mut worker = builder.build(&demo_scene(), &demo_view(), 4, 4).unwrap();
        let done = worker.run_for(8, &vec![3, 3, 3, 3], false).unwrap();
        let len = worker.data.len();
        let readback: Vec<u32> = (0..len).map(|i| bits(i as f32 / len as f32)).collect();
        worker.data_mut().sync_buffer(readback);
        let mut post = create_default_postproc()
            .collect(&clay::process::postproc::IdentityFilter {}, 4, 4)
            .unwrap();
        post.process_one(worker.data()).unwrap();
        let shaded: Vec<u8> = post.working.iter().map(|&c| {
            (f32::from_bits(c) * 255.0 / done as f32) as u8
        }).collect();
        post.make_image(shaded).unwrap();
        (worker.kernel_source.clone(), worker.scene_ints.clone(), post.image().clone())
    };
    let a = run();
    let b = run();
    assert_eq!(a, b);
}
