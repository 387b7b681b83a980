use vcs::vcs_riot::{
    VcsRiot, REG_INSTAT, REG_INTIM, REG_SWCHA, REG_SWCHB, REG_T1024T, REG_TIM64T, REG_TIM8T,
    REG_TIMI1T,
};

fn ticks(riot: &mut VcsRiot, n: u32) {
    for _ in 0..n {
        riot.execute_tick();
    }
}

fn fresh() -> VcsRiot {
    let mut riot = VcsRiot::new();
    riot.reset();
    riot
}

#[test]
fn reset_rests_the_stick_and_the_switches() {
    let mut riot = fresh();
    assert_eq!(riot.read(REG_SWCHA), 0xff);
    assert_eq!(riot.read(REG_SWCHB), 0x0b);
    assert_eq!(riot.read(REG_INSTAT), 0);
}

#[test]
fn tim64t_counts_down_every_64_clocks() {
    let mut riot = fresh();
    riot.write(REG_TIM64T, 5);
    assert_eq!(riot.read(REG_INTIM), 4);
    ticks(&mut riot, 63);
    assert_eq!(riot.read(REG_INTIM), 4);
    ticks(&mut riot, 1);
    assert_eq!(riot.read(REG_INTIM), 3);
    ticks(&mut riot, 63);
    assert_eq!(riot.read(REG_INTIM), 3);
    ticks(&mut riot, 1);
    assert_eq!(riot.read(REG_INTIM), 2);
}

#[test]
fn tim64t_underflows_after_64_times_the_byte() {
    let mut riot = fresh();
    riot.write(REG_TIM64T, 5);
    ticks(&mut riot, 64 * 5 - 1);
    assert_eq!(riot.read(REG_INTIM), 0);
    assert_eq!(riot.read(REG_INSTAT) & 0x80, 0);
    ticks(&mut riot, 1);
    assert_eq!(riot.read(REG_INSTAT) & 0x80, 0x80);
    assert_eq!(riot.read(REG_INTIM), 0xff);
    // from now on the timer counts every clock
    ticks(&mut riot, 1);
    assert_eq!(riot.read(REG_INTIM), 0xfe);
    ticks(&mut riot, 10);
    assert_eq!(riot.read(REG_INTIM), 0xf4);
}

#[test]
fn a_read_on_the_clock_of_the_underflow_keeps_the_status() {
    let mut riot = fresh();
    riot.write(REG_TIMI1T, 1);
    assert_eq!(riot.read(REG_INTIM), 0);
    ticks(&mut riot, 1);
    assert_eq!(riot.read(REG_INSTAT) & 0x80, 0x80);
    assert_eq!(riot.read(REG_INTIM), 0xff);
    assert_eq!(riot.read(REG_INSTAT) & 0x80, 0x80);
}

#[test]
fn a_read_after_another_clock_clears_the_status() {
    let mut riot = fresh();
    riot.write(REG_TIMI1T, 1);
    ticks(&mut riot, 2);
    // the first read since the underflow sees it, the next one does not
    assert_eq!(riot.read(REG_INSTAT) & 0x80, 0x80);
    assert_eq!(riot.read(REG_INSTAT) & 0x80, 0);
    assert_eq!(riot.read(REG_INSTAT) & 0x80, 0);

    let mut riot = fresh();
    riot.write(REG_TIMI1T, 1);
    ticks(&mut riot, 2);
    assert_eq!(riot.read(REG_INTIM), 0xfe);
    assert_eq!(riot.read(REG_INSTAT) & 0x80, 0);
}

#[test]
fn an_underflow_stays_on_record_until_it_is_read() {
    for byte in [2u8, 5, 100, 255] {
        let mut riot = fresh();
        riot.write(REG_TIM64T, byte);
        ticks(&mut riot, 65 + 64 * byte as u32);
        // 65 clocks after the underflow the timer has lost 65 more
        assert_eq!(riot.read(REG_INSTAT) & 0x80, 0x80, "byte {}", byte);
        assert_eq!(riot.read(REG_INSTAT) & 0x80, 0);
        assert_eq!(riot.read(REG_INTIM), 255 - 65);
        ticks(&mut riot, 1);
        assert_eq!(riot.read(REG_INTIM), 255 - 66);
        ticks(&mut riot, 190);
        assert_eq!(riot.read(REG_INTIM), 255);
        assert_eq!(riot.read(REG_INSTAT) & 0x80, 0x80);
    }
}

#[test]
fn a_timer_write_clears_the_underflow_and_sets_the_rate() {
    let mut riot = fresh();
    riot.write(REG_TIMI1T, 1);
    ticks(&mut riot, 1);
    riot.write(REG_TIM8T, 3);
    assert_eq!(riot.read(REG_INSTAT) & 0x80, 0);
    assert_eq!(riot.read(REG_INTIM), 2);
    ticks(&mut riot, 7);
    assert_eq!(riot.read(REG_INTIM), 2);
    ticks(&mut riot, 1);
    assert_eq!(riot.read(REG_INTIM), 1);
    // the register keeps the byte written
    assert_eq!(riot.read(REG_TIM8T), 3);
}

#[test]
fn each_timer_register_has_its_rate() {
    for (register, step) in [(REG_TIMI1T, 1u32), (REG_TIM8T, 8), (REG_TIM64T, 64), (REG_T1024T, 1024)]
    {
        let mut riot = fresh();
        riot.write(register, 0x10);
        assert_eq!(riot.read(REG_INTIM), 0x0f);
        ticks(&mut riot, step - 1);
        assert_eq!(riot.read(REG_INTIM), 0x0f);
        ticks(&mut riot, 1);
        assert_eq!(riot.read(REG_INTIM), 0x0e);
        ticks(&mut riot, 3 * step);
        assert_eq!(riot.read(REG_INTIM), 0x0b);
    }
}

#[test]
fn a_timer_started_at_zero_reads_255() {
    let mut riot = fresh();
    riot.write(REG_TIM64T, 0);
    assert_eq!(riot.read(REG_INTIM), 0xff);
    ticks(&mut riot, 64);
    assert_eq!(riot.read(REG_INTIM), 0xfe);
}

#[test]
fn the_switches_pull_their_bit_low() {
    let mut riot = fresh();
    riot.select_pressed(true);
    assert_eq!(riot.read(REG_SWCHB), 0x09);
    riot.reset_pressed(true);
    assert_eq!(riot.read(REG_SWCHB), 0x08);
    riot.select_pressed(false);
    assert_eq!(riot.read(REG_SWCHB), 0x0a);
    riot.reset_pressed(false);
    assert_eq!(riot.read(REG_SWCHB), 0x0b);
}

#[test]
fn the_stick_pulls_the_bit_of_its_direction_low() {
    let mut riot = fresh();
    riot.left_controller_up_down(1);
    assert_eq!(riot.read(REG_SWCHA), 0xef);
    riot.left_controller_up_down(-1);
    assert_eq!(riot.read(REG_SWCHA), 0xdf);
    riot.left_controller_up_down(0);
    assert_eq!(riot.read(REG_SWCHA), 0xff);
    riot.left_controller_left_right(-1);
    assert_eq!(riot.read(REG_SWCHA), 0xbf);
    riot.left_controller_left_right(1);
    assert_eq!(riot.read(REG_SWCHA), 0x7f);
    riot.left_controller_up_down(1);
    assert_eq!(riot.read(REG_SWCHA), 0x6f);
    riot.left_controller_left_right(0);
    assert_eq!(riot.read(REG_SWCHA), 0xef);
}

#[test]
fn working_ram_keeps_what_is_written() {
    let mut riot = fresh();
    for location in 0..128u16 {
        assert_eq!(riot.read_ram(location), 0);
    }
    riot.write_ram(0, 0x12);
    riot.write_ram(127, 0x34);
    assert_eq!(riot.read_ram(0), 0x12);
    assert_eq!(riot.read_ram(127), 0x34);
    assert_eq!(riot.read_ram(1), 0);
    // the I/O block is another block
    assert_eq!(riot.read(REG_SWCHA), 0xff);
}
