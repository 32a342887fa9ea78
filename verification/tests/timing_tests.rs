use a2vm_core::timing::{flash_visible, tick_budget, CPU_HZ, MAX_STEP_NANOS};

#[test]
fn tick_budget_converts_a_frame_to_cycles() {
    let b = tick_budget(0, 16_666_667, false);
    assert_eq!(b.real_cycles, 17_050);
    assert_eq!(b.accum, 341_000);
    assert_eq!(b.cycles_to_run, 17_050);
}

#[test]
fn tick_budget_turbo_multiplies_by_four() {
    let b = tick_budget(0, 16_666_667, true);
    assert_eq!(b.real_cycles, 17_050);
    assert_eq!(b.cycles_to_run, 68_200);
}

#[test]
fn tick_budget_caps_long_pauses() {
    let b = tick_budget(0, 5_000_000_000, false);
    assert_eq!(b.real_cycles, (MAX_STEP_NANOS * CPU_HZ as u128 / 1_000_000_000) as u64);
    assert_eq!(b.real_cycles, 102_300);
    assert_eq!(b.accum, 0);
}

#[test]
fn tick_budget_carries_the_remainder() {
    let b = tick_budget(999_999_999, 1_000, false);
    assert_eq!(b.real_cycles, 2);
    assert_eq!(b.accum, 22_999_999);
    let none = tick_budget(0, 0, true);
    assert_eq!(none.real_cycles, 0);
    assert_eq!(none.cycles_to_run, 0);
    assert_eq!(none.accum, 0);
}

#[test]
fn tick_budget_one_second_of_small_steps_is_cpu_hz() {
    let mut accum = 0u128;
    let mut total = 0u64;
    for _ in 0..1000 {
        let b = tick_budget(accum, 1_000_000, false);
        accum = b.accum;
        total += b.real_cycles;
    }
    assert_eq!(total, CPU_HZ);
    assert_eq!(accum, 0);
}

#[test]
fn flash_alternates_every_half_period() {
    assert!(flash_visible(0));
    assert!(flash_visible(266));
    assert!(!flash_visible(267));
    assert!(!flash_visible(533));
    assert!(flash_visible(534));
}
