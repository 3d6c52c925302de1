use corgi_gpu::gpu3d::{Gpu3D, GxCommand, GxError};

#[test]
fn fifo_takes_256_commands_and_then_refuses() {
    let mut g = Gpu3D::new();
    for i in 0..256 {
        assert_eq!(g.enqueue(GxCommand::with_params(0x20, &[i])), Ok(()));
    }
    assert_eq!(g.gx_fifo.len(), 256);
    assert_eq!(g.enqueue(GxCommand::plain(0x15)), Err(GxError::QueueFull));
    assert_eq!(g.gx_fifo.len(), 256);
    assert!(!g.fifo_stalled());
    g.write_fifo_direct(0x454, 0);
    assert!(g.fifo_stalled());
    assert_eq!(g.gx_fifo.len(), 256);
    g.write_gxfifo(0x15);
    assert!(g.fifo_stalled());
    assert_eq!(g.state.unpack.cmd_count, 0);
    assert!(!g.check_fifo_dma());
}

#[test]
fn packed_word_unpacks_into_commands_in_order() {
    let mut g = Gpu3D::new();
    // MTX_MODE, MTX_IDENTITY, MTX_PUSH, COLOR packed in one word.
    g.write_gxfifo(0x2011_1510);
    assert_eq!(g.gx_fifo.len(), 0);
    g.write_gxfifo(2);
    assert_eq!(g.gx_fifo.len(), 3);
    g.write_gxfifo(0x7C1F);
    assert_eq!(g.gx_fifo.len(), 4);
    let ops: Vec<u8> = g.gx_fifo.iter().map(|c| c.command).collect();
    assert_eq!(ops, vec![0x10, 0x15, 0x11, 0x20]);
    assert_eq!(g.gx_fifo[0].params[0], 2);
    assert_eq!(g.gx_fifo[0].param_count, 1);
    assert_eq!(g.gx_fifo[1].param_count, 0);
    assert_eq!(g.gx_fifo[3].params[0], 0x7C1F);
    // A word with a single command and padding.
    g.write_gxfifo(0x0000_0041);
    assert_eq!(g.gx_fifo.len(), 5);
    assert_eq!(g.state.unpack.cmd_count, 0);
    // A command with several parameters.
    g.write_gxfifo(0x1C);
    g.write_gxfifo(1);
    g.write_gxfifo(2);
    assert_eq!(g.gx_fifo.len(), 5);
    g.write_gxfifo(3);
    assert_eq!(g.gx_fifo.len(), 6);
    assert_eq!(&g.gx_fifo[5].params[0..3], &[1, 2, 3]);
}

#[test]
fn port_write_gathers_the_parameters_of_its_command() {
    let mut g = Gpu3D::new();
    // Port of VTX_16 (0x23) at 0x48C: two parameters.
    g.write_fifo_direct(0x48C, 0x0002_0001);
    assert_eq!(g.gx_fifo.len(), 0);
    g.write_fifo_direct(0x48C, 0x0003);
    assert_eq!(g.gx_fifo.len(), 1);
    assert_eq!(g.gx_fifo[0].command, 0x23);
    assert_eq!(g.gx_fifo[0].param_count, 2);
    assert_eq!(&g.gx_fifo[0].params[0..2], &[0x0002_0001, 3]);
    // A write to another port drops what was gathered.
    g.write_fifo_direct(0x48C, 9);
    g.write_fifo_direct(0x454, 0);
    assert_eq!(g.gx_fifo.len(), 2);
    assert_eq!(g.gx_fifo[1].command, 0x15);
    g.write_fifo_direct(0x48C, 7);
    assert_eq!(g.gx_fifo.len(), 2);
}

#[test]
fn drain_stops_past_the_budget_and_finishes_a_command() {
    let mut g = Gpu3D::new();
    for _ in 0..10 {
        g.enqueue(GxCommand::plain(0x11)).unwrap();
    }
    // Each push costs 17 cycles: the third takes the cost past 40.
    g.run(40);
    assert_eq!(g.state.mtx.projection_sp, 1);
    assert_eq!(g.state.cycles, 51);
    assert_eq!(g.gx_pipe.len(), 4);
    assert_eq!(g.gx_fifo.len(), 3);
    assert!(g.state.gxstat.geo_busy);
    // With nothing to spend one command is still started, and finished.
    g.run(0);
    assert_eq!(g.gx_pipe.len() + g.gx_fifo.len(), 6);
    assert_eq!(g.state.cycles, 17);
    g.run(10_000);
    assert_eq!(g.gx_pipe.len() + g.gx_fifo.len(), 0);
    assert_eq!(g.state.cycles, 6 * 17);
    assert!(!g.state.gxstat.geo_busy);
}

#[test]
fn command_is_started_when_exactly_the_budget_is_spent() {
    let mut g = Gpu3D::new();
    g.set_mtx_mode(1);
    for _ in 0..3 {
        g.enqueue(GxCommand::plain(0x11)).unwrap();
    }
    // The budget is the cost of the first command: the second is started
    // too, and takes the cost past the budget.
    g.run(17);
    assert_eq!(g.state.mtx.modelview_sp, 2);
    assert_eq!(g.state.cycles, 34);
    assert_eq!(g.gx_pipe.len() + g.gx_fifo.len(), 1);
    // One cycle less than the cost of two: the second is the last.
    let mut h = Gpu3D::new();
    h.set_mtx_mode(1);
    for _ in 0..3 {
        h.enqueue(GxCommand::plain(0x11)).unwrap();
    }
    h.run(33);
    assert_eq!(h.state.mtx.modelview_sp, 2);
    h.run(16);
    assert_eq!(h.state.mtx.modelview_sp, 3);
    assert_eq!(h.state.cycles, 17);
}

#[test]
fn commands_run_in_the_order_in_which_they_were_enqueued() {
    let mut g = Gpu3D::new();
    g.enqueue(GxCommand::with_params(0x10, &[1])).unwrap();
    g.enqueue(GxCommand::with_params(0x1C, &[1, 2, 3])).unwrap();
    g.enqueue(GxCommand::plain(0x11)).unwrap();
    g.enqueue(GxCommand::plain(0x15)).unwrap();
    g.enqueue(GxCommand::with_params(0x12, &[1])).unwrap();
    g.run(u64::MAX);
    assert_eq!(g.state.mtx.mtx_mode, 1);
    assert_eq!(g.state.mtx.modelview_mtx.m[3], [1, 2, 3, 4096]);
    assert_eq!(g.state.mtx.modelview_sp, 0);
}

#[test]
fn unknown_and_malformed_commands_change_nothing() {
    let mut g = Gpu3D::new();
    g.enqueue(GxCommand::plain(0xFF)).unwrap();
    g.enqueue(GxCommand::plain(0x1C)).unwrap();
    g.enqueue(GxCommand::with_params(0x15, &[1])).unwrap();
    let before = g.state;
    g.run(1000);
    assert_eq!(g.gx_fifo.len(), 0);
    assert_eq!(g.state.mtx.mtx_mode, before.mtx.mtx_mode);
    assert_eq!(g.state.mtx.projection_mtx.m, before.mtx.projection_mtx.m);
    assert_eq!(g.state.mtx.clip_dirty, before.mtx.clip_dirty);
    assert_eq!(g.state.cycles, 1 + 22 + 19);
}

#[test]
fn read_command_takes_the_oldest_command() {
    let mut g = Gpu3D::new();
    assert!(g.read_command().is_none());
    for i in 0..6 {
        g.enqueue(GxCommand::with_params(0x20, &[i])).unwrap();
    }
    let first = g.read_command().unwrap();
    assert_eq!(first.params[0], 0);
    assert_eq!(g.gx_pipe.len(), 3);
    assert_eq!(g.gx_fifo.len(), 2);
    assert_eq!(g.read_command().unwrap().params[0], 1);
}

#[test]
fn power_on_empties_the_queue() {
    let mut g = Gpu3D::new();
    for _ in 0..6 {
        g.enqueue(GxCommand::plain(0x11)).unwrap();
    }
    g.run(1);
    g.power_on();
    assert_eq!(g.gx_pipe.len() + g.gx_fifo.len(), 0);
    assert_eq!(g.state.cycles, 0);
}

fn triangle(g: &mut Gpu3D) {
    g.exec_command(GxCommand::with_params(0x23, &[0xF800_F800, 0]));
    g.exec_command(GxCommand::with_params(0x23, &[0xF800_0800, 0]));
    g.exec_command(GxCommand::with_params(0x23, &[0x0800_0000, 0]));
}

#[test]
fn swap_waits_until_the_run_is_closed() {
    let mut g = Gpu3D::new();
    g.viewport_cmd(0xBFFF_0000);
    g.begin_vtxs(0);
    triangle(&mut g);
    assert_eq!(g.geo_poly.len(), 1);
    assert_eq!(g.geo_vert.len(), 3);
    // A request and a new run before any boundary: the swap is pending
    // while the run is open.
    g.swap_buffers(0);
    assert!(!g.state.run_open);
    g.begin_vtxs(0);
    assert!(g.state.swap_buffers && g.state.run_open);
    g.end_of_frame();
    assert!(g.state.swap_buffers);
    assert_eq!(g.get_poly_count(), 0);
    assert_eq!(g.geo_poly.len(), 1);
    // The run ends in the queue; the swap takes place before the command
    // after it is executed, which therefore finds the position stack of
    // the new frame.
    g.enqueue(GxCommand::plain(0x41)).unwrap();
    g.enqueue(GxCommand::with_params(0x40, &[0])).unwrap();
    g.enqueue(GxCommand::with_params(0x23, &[0xF800_F800, 0])).unwrap();
    g.enqueue(GxCommand::with_params(0x23, &[0xF800_0800, 0])).unwrap();
    g.enqueue(GxCommand::with_params(0x23, &[0x0800_0000, 0])).unwrap();
    g.run(1_000);
    assert!(!g.state.swap_buffers);
    assert_eq!(g.get_poly_count(), 1);
    assert_eq!(g.get_vert_count(), 3);
    assert_eq!(g.geo_poly.len(), 1);
    assert_eq!(g.geo_vert.len(), 3);
}

#[test]
fn swap_request_ends_the_run_and_takes_place_at_end_of_frame() {
    let mut g = Gpu3D::new();
    g.viewport_cmd(0xBFFF_0000);
    g.begin_vtxs(0);
    triangle(&mut g);
    g.exec_command(GxCommand::with_params(0x23, &[0, 0]));
    assert_eq!(g.state.vertex_list_count, 1);
    g.swap_buffers(1);
    assert_eq!(g.state.vertex_list_count, 0);
    assert_eq!(g.state.flush_mode, 1);
    assert_eq!(g.get_poly_count(), 0);
    g.end_of_frame();
    assert_eq!(g.get_poly_count(), 1);
    assert_eq!(g.geo_poly.len(), 0);
    assert_eq!(g.geo_vert.len(), 0);
    g.end_of_frame();
    assert_eq!(g.get_poly_count(), 1);
}
