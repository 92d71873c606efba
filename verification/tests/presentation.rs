use cellgrid::dispatch::DispatchSize;
use cellgrid::dispatch::StepEngine;
use cellgrid::dispatch::WORKGROUP_X;
use cellgrid::dispatch::WORKGROUP_Y;
use cellgrid::error::ConfigurationError;
use cellgrid::geometry::quad_indices;
use cellgrid::geometry::quad_vertices;
use cellgrid::geometry::uv_offset;
use cellgrid::geometry::vertex_stride;
use cellgrid::params::SimulationParams;
use cellgrid::render::render_plan;
use cellgrid::rule::SimulationCell;
use cellgrid::rule::TransitionRule;
use cellgrid::state::SimulationState;
use cellgrid::surface::SurfaceConfig;
use cellgrid::surface::choose_surface_format;

#[test]
fn dispatch_covers_the_grid_exactly() {
    assert_eq!(WORKGROUP_X, 8);
    assert_eq!(WORKGROUP_Y, 8);
    let engine = StepEngine::new(SimulationParams::new(4, 4), 65535).unwrap();
    assert_eq!(engine.dispatch, DispatchSize { x: 1, y: 1 });
    let engine = StepEngine::new(SimulationParams::new(17, 8), 65535).unwrap();
    assert_eq!(engine.dispatch, DispatchSize { x: 3, y: 1 });
    let engine = StepEngine::new(SimulationParams::new(800, 600), 65535).unwrap();
    assert_eq!(engine.dispatch, DispatchSize { x: 100, y: 75 });
    let engine = StepEngine::new(SimulationParams::new(0, 0), 65535).unwrap();
    assert_eq!(engine.dispatch, DispatchSize { x: 0, y: 0 });
}

#[test]
fn dispatch_beyond_the_device_limit_is_a_configuration_error() {
    // 16 * 8 = 128 cells wide needs 16 groups; a limit of 15 refuses it.
    let r = StepEngine::new(SimulationParams::new(128, 8), 15);
    assert!(matches!(r, Err(ConfigurationError::DispatchLimitExceeded)));
    // Exactly at the limit is fine.
    assert!(StepEngine::new(SimulationParams::new(128, 8), 16).is_ok());
}

#[test]
fn step_plan_binds_read_and_write_apart() {
    let params = SimulationParams::new(8, 8);
    let engine = StepEngine::new(params, 65535).unwrap();
    let cells = vec![SimulationCell { status: 0 }; 64];
    let mut store = SimulationState::new(params, cells).unwrap();
    let plan = engine.plan(&store);
    assert_eq!(plan.read_index, 0);
    assert_eq!(plan.write_index, 1);
    assert_eq!(plan.groups, DispatchSize { x: 1, y: 1 });
    store.step(TransitionRule::Identity);
    let plan = engine.plan(&store);
    assert_eq!(plan.read_index, 1);
    assert_eq!(plan.write_index, 0);
}

#[test]
fn render_plan_shows_the_newest_generation() {
    let params = SimulationParams::new(2, 2);
    let cells = vec![SimulationCell { status: 1 }; 4];
    let mut store = SimulationState::new(params, cells).unwrap();
    let plan = render_plan(&store);
    assert_eq!(plan.snapshot_index, 0);
    assert_eq!(plan.index_count, 6);
    assert_eq!(plan.clear_color.red, 0);
    assert_eq!(plan.clear_color.green, 0);
    assert_eq!(plan.clear_color.blue, 0);
    assert_eq!(plan.clear_color.alpha, 255);
    store.step(TransitionRule::Identity);
    // After the step the freshly written buffer is the one rendered.
    assert_eq!(render_plan(&store).snapshot_index, 1);
}

#[test]
fn the_quad_is_four_corners_and_six_indices() {
    let vs = quad_vertices();
    assert_eq!(vs.len(), 4);
    let corners: Vec<(i8, i8, u8, u8)> = vs.iter().map(|v| (v.x, v.y, v.u, v.v)).collect();
    assert_eq!(
        corners,
        vec![(-1, -1, 0, 0), (1, -1, 1, 0), (1, 1, 1, 1), (-1, 1, 0, 1)]
    );
    assert_eq!(quad_indices(), vec![0, 1, 2, 2, 3, 0]);
    assert_eq!(vertex_stride(), 24);
    assert_eq!(uv_offset(), 16);
}

#[test]
fn reconfigure_applies_a_new_size_once() {
    let mut config = SurfaceConfig::new(640, 480);
    assert!(config.reconfigure(800, 600));
    assert_eq!((config.width, config.height), (800, 600));
    // The second identical request changes nothing and owes no
    // reallocation.
    assert!(!config.reconfigure(800, 600));
    assert_eq!((config.width, config.height), (800, 600));
}

#[test]
fn reconfigure_ignores_zero_sized_requests() {
    let mut config = SurfaceConfig::new(640, 480);
    assert!(!config.reconfigure(0, 600));
    assert_eq!((config.width, config.height), (640, 480));
    assert!(!config.reconfigure(800, 0));
    assert_eq!((config.width, config.height), (640, 480));
    assert!(!config.reconfigure(0, 0));
    assert_eq!((config.width, config.height), (640, 480));
}

#[test]
fn surface_format_prefers_the_first_srgb_entry() {
    assert_eq!(choose_surface_format(&vec![false, true, true]), 1);
    assert_eq!(choose_surface_format(&vec![true, false]), 0);
    assert_eq!(choose_surface_format(&vec![false, false, false]), 0);
    assert_eq!(choose_surface_format(&vec![false]), 0);
}
