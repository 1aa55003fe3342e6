use traffic_lights::action::color_line;
use traffic_lights::lamp::{Lamp, Outputs};
use traffic_lights::phase::{phase_table, Phase, PhaseRecord, PHASE_COUNT};

const ALL_PHASES: [Phase; 4] = [Phase::Red, Phase::Orange1, Phase::Green, Phase::Orange2];

#[test]
fn table_holds_the_four_records_in_cycle_order() {
    let table = phase_table();
    assert_eq!(table.len(), 4);
    assert_eq!(PHASE_COUNT, 4);
    assert_eq!(
        table[0],
        PhaseRecord { red_on: true, orange_on: false, green_on: false, duration_ms: 2000, label: "Red" }
    );
    assert_eq!(
        table[1],
        PhaseRecord { red_on: false, orange_on: true, green_on: false, duration_ms: 1000, label: "Orange" }
    );
    assert_eq!(
        table[2],
        PhaseRecord { red_on: false, orange_on: false, green_on: true, duration_ms: 3000, label: "Green" }
    );
    assert_eq!(
        table[3],
        PhaseRecord { red_on: false, orange_on: true, green_on: false, duration_ms: 1000, label: "Orange" }
    );
}

#[test]
fn table_entry_of_each_phase_is_its_record() {
    let table = phase_table();
    for phase in ALL_PHASES {
        assert_eq!(table[phase.index()], phase.record());
        assert_eq!(phase.record().outputs(), phase.outputs());
    }
}

#[test]
fn the_cycle_is_entered_at_red() {
    assert_eq!(Phase::first(), Phase::Red);
    assert_eq!(Phase::first().index(), 0);
}

#[test]
fn index_counts_the_phases_in_table_order() {
    assert_eq!(Phase::Red.index(), 0);
    assert_eq!(Phase::Orange1.index(), 1);
    assert_eq!(Phase::Green.index(), 2);
    assert_eq!(Phase::Orange2.index(), 3);
}

#[test]
fn from_index_gives_a_phase_for_table_positions_only() {
    assert_eq!(Phase::from_index(0), Some(Phase::Red));
    assert_eq!(Phase::from_index(1), Some(Phase::Orange1));
    assert_eq!(Phase::from_index(2), Some(Phase::Green));
    assert_eq!(Phase::from_index(3), Some(Phase::Orange2));
    assert_eq!(Phase::from_index(4), None);
    assert_eq!(Phase::from_index(usize::MAX), None);
}

#[test]
fn from_index_undoes_index() {
    for phase in ALL_PHASES {
        assert_eq!(Phase::from_index(phase.index()), Some(phase));
    }
}

#[test]
fn next_walks_the_cycle_and_wraps() {
    assert_eq!(Phase::Red.next(), Phase::Orange1);
    assert_eq!(Phase::Orange1.next(), Phase::Green);
    assert_eq!(Phase::Green.next(), Phase::Orange2);
    assert_eq!(Phase::Orange2.next(), Phase::Red);
}

#[test]
fn next_is_index_plus_one_modulo_four() {
    for phase in ALL_PHASES {
        assert_eq!(phase.next().index(), (phase.index() + 1) % 4);
    }
}

#[test]
fn four_steps_of_next_come_back_to_the_start() {
    for phase in ALL_PHASES {
        assert_eq!(phase.next().next().next().next(), phase);
    }
}

#[test]
fn each_phase_has_its_configured_duration() {
    assert_eq!(Phase::Red.duration_ms(), 2000);
    assert_eq!(Phase::Orange1.duration_ms(), 1000);
    assert_eq!(Phase::Green.duration_ms(), 3000);
    assert_eq!(Phase::Orange2.duration_ms(), 1000);
}

#[test]
fn each_phase_has_its_label() {
    assert_eq!(Phase::Red.label(), "Red");
    assert_eq!(Phase::Orange1.label(), "Orange");
    assert_eq!(Phase::Green.label(), "Green");
    assert_eq!(Phase::Orange2.label(), "Orange");
}

#[test]
fn each_phase_lights_exactly_its_own_lamp() {
    assert_eq!(
        Phase::Red.outputs(),
        Outputs { red_on: true, orange_on: false, green_on: false }
    );
    assert_eq!(
        Phase::Orange1.outputs(),
        Outputs { red_on: false, orange_on: true, green_on: false }
    );
    assert_eq!(
        Phase::Green.outputs(),
        Outputs { red_on: false, orange_on: false, green_on: true }
    );
    assert_eq!(
        Phase::Orange2.outputs(),
        Outputs { red_on: false, orange_on: true, green_on: false }
    );
    for phase in ALL_PHASES {
        assert_eq!(phase.outputs().count_lit(), 1);
        assert!(phase.outputs().is_lit(phase.lamp()));
    }
}

#[test]
fn the_two_orange_phases_differ_only_in_their_neighbours() {
    assert_eq!(Phase::Orange1.lamp(), Phase::Orange2.lamp());
    assert_eq!(Phase::Orange1.outputs(), Phase::Orange2.outputs());
    assert_eq!(Phase::Orange1.duration_ms(), Phase::Orange2.duration_ms());
    assert_eq!(Phase::Orange1.label(), Phase::Orange2.label());
    assert_ne!(Phase::Orange1, Phase::Orange2);
    assert_ne!(Phase::Orange1.next(), Phase::Orange2.next());
}

#[test]
fn red_clears_both_other_lamps_and_the_rest_clear_their_predecessor() {
    assert_eq!(Phase::Red.clear_count(), 2);
    assert_eq!(Phase::Red.cleared(0), Some(Lamp::Orange));
    assert_eq!(Phase::Red.cleared(1), Some(Lamp::Green));
    assert_eq!(Phase::Red.cleared(2), None);
    assert_eq!(Phase::Orange1.clear_count(), 1);
    assert_eq!(Phase::Orange1.cleared(0), Some(Lamp::Red));
    assert_eq!(Phase::Orange1.cleared(1), None);
    assert_eq!(Phase::Green.clear_count(), 1);
    assert_eq!(Phase::Green.cleared(0), Some(Lamp::Orange));
    assert_eq!(Phase::Green.cleared(1), None);
    assert_eq!(Phase::Orange2.clear_count(), 1);
    assert_eq!(Phase::Orange2.cleared(0), Some(Lamp::Green));
    assert_eq!(Phase::Orange2.cleared(1), None);
}

#[test]
fn no_phase_clears_its_own_lamp() {
    for phase in ALL_PHASES {
        for i in 0..phase.clear_count() {
            assert_ne!(phase.cleared(i), Some(phase.lamp()));
        }
    }
}

#[test]
fn color_line_puts_the_prefix_before_the_name() {
    assert_eq!(color_line("Red"), "Color: Red");
    assert_eq!(color_line("Orange"), "Color: Orange");
    assert_eq!(color_line("Green"), "Color: Green");
}

#[test]
fn color_line_takes_any_name() {
    assert_eq!(color_line(""), "Color: ");
    assert_eq!(color_line("Blue-ish 7"), "Color: Blue-ish 7");
    assert_eq!(color_line("Color: "), "Color: Color: ");
}

#[test]
fn outputs_all_off_is_dark() {
    let out = Outputs::all_off();
    assert_eq!(out, Outputs { red_on: false, orange_on: false, green_on: false });
    assert_eq!(out.count_lit(), 0);
}

#[test]
fn outputs_showing_lights_one_lamp() {
    assert_eq!(
        Outputs::showing(Lamp::Red),
        Outputs { red_on: true, orange_on: false, green_on: false }
    );
    assert_eq!(
        Outputs::showing(Lamp::Orange),
        Outputs { red_on: false, orange_on: true, green_on: false }
    );
    assert_eq!(
        Outputs::showing(Lamp::Green),
        Outputs { red_on: false, orange_on: false, green_on: true }
    );
}

#[test]
fn outputs_set_writes_one_line_and_keeps_the_others() {
    let mut out = Outputs { red_on: true, orange_on: false, green_on: true };
    out.set(Lamp::Orange, true);
    assert_eq!(out, Outputs { red_on: true, orange_on: true, green_on: true });
    out.set(Lamp::Red, false);
    assert_eq!(out, Outputs { red_on: false, orange_on: true, green_on: true });
    out.set(Lamp::Green, false);
    assert_eq!(out, Outputs { red_on: false, orange_on: true, green_on: false });
    out.set(Lamp::Green, false);
    assert_eq!(out, Outputs { red_on: false, orange_on: true, green_on: false });
}

#[test]
fn outputs_count_lit_counts_every_combination() {
    for bits in 0u8..8 {
        let out = Outputs {
            red_on: bits & 1 != 0,
            orange_on: bits & 2 != 0,
            green_on: bits & 4 != 0,
        };
        assert_eq!(u32::from(out.count_lit()), bits.count_ones());
        assert_eq!(out.is_lit(Lamp::Red), bits & 1 != 0);
        assert_eq!(out.is_lit(Lamp::Orange), bits & 2 != 0);
        assert_eq!(out.is_lit(Lamp::Green), bits & 4 != 0);
    }
}
