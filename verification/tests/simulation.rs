use cellgrid::error::ConfigurationError;
use cellgrid::params::SimulationParams;
use cellgrid::rule::SimulationCell;
use cellgrid::rule::TransitionRule;
use cellgrid::rule::next_snapshot;
use cellgrid::state::SimulationState;

fn cells_of(statuses: &[u8]) -> Vec<SimulationCell> {
    statuses.iter().map(|&status| SimulationCell { status }).collect()
}

fn statuses_of(cells: &[SimulationCell]) -> Vec<u8> {
    cells.iter().map(|c| c.status).collect()
}

#[test]
fn cell_count_is_the_product() {
    assert_eq!(SimulationParams::new(4, 4).cell_count(), 16);
    assert_eq!(SimulationParams::new(0, 7).cell_count(), 0);
    assert_eq!(
        SimulationParams::new(u32::MAX, u32::MAX).cell_count(),
        (u32::MAX as u64) * (u32::MAX as u64)
    );
}

#[test]
fn uniform_bytes_are_width_height_little_endian_padded() {
    let params = SimulationParams::new(4, 4);
    assert_eq!(
        params.uniform_bytes(),
        vec![4, 0, 0, 0, 4, 0, 0, 0, 0, 0, 0, 0, 0, 0, 0, 0]
    );
    let params = SimulationParams::new(0x0102_0304, 0xA0B0_C0D0);
    assert_eq!(
        params.uniform_bytes(),
        vec![0x04, 0x03, 0x02, 0x01, 0xD0, 0xC0, 0xB0, 0xA0, 0, 0, 0, 0, 0, 0, 0, 0]
    );
}

#[test]
fn new_rejects_a_grid_of_the_wrong_size() {
    let params = SimulationParams::new(3, 3);
    let r = SimulationState::new(params, cells_of(&[0; 8]));
    assert!(matches!(r, Err(ConfigurationError::GridSizeMismatch)));
    let r = SimulationState::new(params, cells_of(&[0; 10]));
    assert!(matches!(r, Err(ConfigurationError::GridSizeMismatch)));
    assert!(SimulationState::new(params, cells_of(&[0; 9])).is_ok());
}

#[test]
fn generation_counts_steps_and_indices_alternate() {
    let params = SimulationParams::new(3, 3);
    let mut store = SimulationState::new(params, cells_of(&[0; 9])).unwrap();
    assert_eq!(store.current_generation(), 0);
    for n in 0u64..10 {
        assert_eq!(store.current_generation(), n);
        let read = store.read_index();
        let write = store.write_index();
        assert_eq!(read, (n % 2) as u32);
        assert_eq!(write, ((n + 1) % 2) as u32);
        assert_ne!(read, write);
        store.step(TransitionRule::Identity);
    }
    assert_eq!(store.current_generation(), 10);
}

#[test]
fn advance_flips_roles_without_touching_the_snapshots() {
    let params = SimulationParams::new(2, 2);
    let initial = cells_of(&[1, 2, 3, 4]);
    let mut store = SimulationState::new(params, initial.clone()).unwrap();
    let before0 = statuses_of(&store.snapshot0);
    let before1 = statuses_of(&store.snapshot1);
    store.advance();
    assert_eq!(store.current_generation(), 1);
    assert_eq!(statuses_of(&store.snapshot0), before0);
    assert_eq!(statuses_of(&store.snapshot1), before1);
    assert_eq!(store.read_index(), 1);
    assert_eq!(store.write_index(), 0);
}

#[test]
fn scenario_all_zero_grid_identity_step() {
    // A 4x4 all-zero grid stepped once under the identity transition:
    // generation 1, read index 1, contents unchanged.
    let params = SimulationParams::new(4, 4);
    let mut store = SimulationState::new(params, cells_of(&[0; 16])).unwrap();
    store.step(TransitionRule::Identity);
    assert_eq!(store.current_generation(), 1);
    assert_eq!(store.read_index(), 1);
    assert_eq!(statuses_of(&store.snapshot1), vec![0; 16]);
    assert_eq!(statuses_of(&store.snapshot0), vec![0; 16]);
}

#[test]
fn identity_step_shows_a_known_grid_unchanged() {
    // The read snapshot after an identity step equals the grid fed in.
    let params = SimulationParams::new(3, 3);
    let grid = [0, 1, 0, 1, 0, 1, 0, 1, 0];
    let mut store = SimulationState::new(params, cells_of(&grid)).unwrap();
    store.step(TransitionRule::Identity);
    assert_eq!(store.read_index(), 1);
    assert_eq!(statuses_of(&store.snapshot1), grid.to_vec());
}

#[test]
fn life_keeps_a_block_still() {
    // A 2x2 block in a 4x4 grid is a still life.
    let params = SimulationParams::new(4, 4);
    let block = [
        0, 0, 0, 0,
        0, 1, 1, 0,
        0, 1, 1, 0,
        0, 0, 0, 0,
    ];
    let next = next_snapshot(&cells_of(&block), &params, TransitionRule::Life);
    assert_eq!(statuses_of(&next), block.to_vec());
}

#[test]
fn life_oscillates_a_blinker() {
    // A horizontal blinker in a 5x5 grid flips to vertical and back.
    let params = SimulationParams::new(5, 5);
    let horizontal = [
        0, 0, 0, 0, 0,
        0, 0, 0, 0, 0,
        0, 1, 1, 1, 0,
        0, 0, 0, 0, 0,
        0, 0, 0, 0, 0,
    ];
    let vertical = [
        0, 0, 0, 0, 0,
        0, 0, 1, 0, 0,
        0, 0, 1, 0, 0,
        0, 0, 1, 0, 0,
        0, 0, 0, 0, 0,
    ];
    let once = next_snapshot(&cells_of(&horizontal), &params, TransitionRule::Life);
    assert_eq!(statuses_of(&once), vertical.to_vec());
    let twice = next_snapshot(&once, &params, TransitionRule::Life);
    assert_eq!(statuses_of(&twice), horizontal.to_vec());
}

#[test]
fn life_treats_the_border_as_dead() {
    // Three cells in a corner: the corner cell has two live neighbours
    // and survives; cells beyond the border contribute nothing.
    let params = SimulationParams::new(3, 3);
    let corner = [
        1, 1, 0,
        1, 0, 0,
        0, 0, 0,
    ];
    let next = next_snapshot(&cells_of(&corner), &params, TransitionRule::Life);
    // Every cell of the 2x2 corner square has exactly three live
    // neighbours (or two for the seeds), closing the block.
    let expected = [
        1, 1, 0,
        1, 1, 0,
        0, 0, 0,
    ];
    assert_eq!(statuses_of(&next), expected.to_vec());
}

#[test]
fn life_steps_through_the_store_and_swaps_roles() {
    let params = SimulationParams::new(5, 5);
    let horizontal = [
        0, 0, 0, 0, 0,
        0, 0, 0, 0, 0,
        0, 1, 1, 1, 0,
        0, 0, 0, 0, 0,
        0, 0, 0, 0, 0,
    ];
    let mut store = SimulationState::new(params, cells_of(&horizontal)).unwrap();
    store.step(TransitionRule::Life);
    // The freshly written snapshot is now "read"; the fed grid survives
    // untouched as the next write buffer.
    assert_eq!(store.read_index(), 1);
    assert_eq!(statuses_of(&store.snapshot0), horizontal.to_vec());
    let vertical = statuses_of(&store.snapshot1);
    assert_eq!(vertical[7], 1);
    assert_eq!(vertical[12], 1);
    assert_eq!(vertical[17], 1);
    assert_eq!(vertical.iter().map(|&s| s as u32).sum::<u32>(), 3);
}

#[test]
fn an_empty_grid_is_allowed_and_stays_empty() {
    let params = SimulationParams::new(0, 5);
    let mut store = SimulationState::new(params, Vec::new()).unwrap();
    store.step(TransitionRule::Life);
    assert_eq!(store.current_generation(), 1);
    assert!(store.snapshot0.is_empty());
    assert!(store.snapshot1.is_empty());
}
