use elisa::actuator::Actuator;
use elisa::controller::{branch_controllers, process_statuses, Controller};
use elisa::dashboard::{alarm_branches, validity_badge};
use elisa::history::{History, WINDOW_SIZE};
use elisa::input::{answer_of, read_number, yes_no};
use elisa::menu::{
    inject_action, inject_request, menu_choice, InjectAction, InjectKind, InjectRequest, MenuChoice,
};
use elisa::simulation::{simulation_step, SimLeak, SimStep};
use elisa::status::{overall_status, LeakStatus};
use elisa::status::LeakStatus::{Aman, Bahaya, Waspada};

#[test]
fn labels_of_each_status() {
    assert_eq!(LeakStatus::Aman.label(), "AMAN");
    assert_eq!(LeakStatus::Waspada.label(), "WASPADA");
    assert_eq!(LeakStatus::Bahaya.label(), "BAHAYA");
}

#[test]
fn colors_of_each_status() {
    assert_eq!(LeakStatus::Aman.color(), "#16a34a");
    assert_eq!(LeakStatus::Waspada.color(), "#d97706");
    assert_eq!(LeakStatus::Bahaya.color(), "#dc2626");
}

#[test]
fn labels_and_colors_are_distinct() {
    let all = [LeakStatus::Aman, LeakStatus::Waspada, LeakStatus::Bahaya];
    for a in all.iter() {
        for b in all.iter() {
            if a != b {
                assert_ne!(a.label(), b.label());
                assert_ne!(a.color(), b.color());
            }
        }
    }
}

#[test]
fn invalid_sensor_is_danger() {
    assert_eq!(LeakStatus::for_sensor(false, LeakStatus::Aman), LeakStatus::Bahaya);
    assert_eq!(LeakStatus::for_sensor(false, LeakStatus::Waspada), LeakStatus::Bahaya);
    assert_eq!(LeakStatus::for_sensor(true, LeakStatus::Aman), LeakStatus::Aman);
    assert_eq!(LeakStatus::for_sensor(true, LeakStatus::Waspada), LeakStatus::Waspada);
}

#[test]
fn badge_pulses_only_in_danger() {
    assert_eq!(LeakStatus::Bahaya.badge_class(), "pulse-badge");
    assert_eq!(LeakStatus::Waspada.badge_class(), "");
    assert_eq!(LeakStatus::Aman.badge_class(), "");
}

#[test]
fn overall_takes_most_severe() {
    assert_eq!(overall_status(&vec![Aman, Aman, Aman]), Aman);
    assert_eq!(overall_status(&vec![Aman, Waspada, Aman]), Waspada);
    assert_eq!(overall_status(&vec![Waspada, Aman, Bahaya]), Bahaya);
    assert_eq!(overall_status(&vec![Bahaya, Waspada]), Bahaya);
    assert_eq!(overall_status(&vec![]), Aman);
}

#[test]
fn actuator_starts_green() {
    let a = Actuator::new();
    assert!(a.led_hijau && !a.led_kuning && !a.led_merah && !a.buzzer);
}

#[test]
fn actuator_shows_each_status() {
    let mut a = Actuator::new();
    a.update(&LeakStatus::Waspada);
    assert!(!a.led_hijau && a.led_kuning && !a.led_merah && !a.buzzer);
    a.update(&LeakStatus::Bahaya);
    assert!(!a.led_hijau && !a.led_kuning && a.led_merah && a.buzzer);
    a.update(&LeakStatus::Aman);
    assert_eq!(a, Actuator::new());
}

#[test]
fn actuator_one_lamp_and_buzzer_with_red() {
    for s in [LeakStatus::Aman, LeakStatus::Waspada, LeakStatus::Bahaya].iter() {
        let mut a = Actuator::new();
        a.update(s);
        let lit = [a.led_hijau, a.led_kuning, a.led_merah].iter().filter(|b| **b).count();
        assert_eq!(lit, 1);
        assert_eq!(a.buzzer, a.led_merah);
        assert_eq!(a.buzzer, *s == LeakStatus::Bahaya);
    }
}

#[test]
fn lamp_styles_follow_outputs() {
    let mut a = Actuator::new();
    let st = a.lamp_styles();
    assert_eq!((st.green, st.green_glow), ("#16a34a", "0 0 8px #16a34a88"));
    assert_eq!((st.yellow, st.yellow_glow), ("#d1d5db", "none"));
    assert_eq!((st.red, st.red_glow), ("#d1d5db", "none"));
    assert_eq!((st.buzzer, st.buzzer_glow, st.buzzer_class), ("#e5e7eb", "none", ""));
    a.update(&LeakStatus::Bahaya);
    let st = a.lamp_styles();
    assert_eq!((st.green, st.green_glow), ("#d1d5db", "none"));
    assert_eq!((st.red, st.red_glow), ("#dc2626", "0 0 8px #dc262688"));
    assert_eq!((st.buzzer, st.buzzer_glow, st.buzzer_class), ("#dc2626", "0 0 8px #dc262688", "buz-anim"));
    a.update(&LeakStatus::Waspada);
    let st = a.lamp_styles();
    assert_eq!((st.yellow, st.yellow_glow), ("#d97706", "0 0 8px #d9770688"));
}

#[test]
fn history_keeps_last_five() {
    let mut h: History<i32> = History::new();
    assert!(h.is_empty());
    for x in 1..=7 {
        h.push(x);
        assert!(h.len() <= WINDOW_SIZE);
    }
    assert_eq!(h.len(), 5);
    let kept: Vec<i32> = (0..h.len()).map(|i| *h.get(i)).collect();
    assert_eq!(kept, vec![3, 4, 5, 6, 7]);
}

#[test]
fn history_below_window_keeps_all() {
    let mut h: History<f32> = History::new();
    h.push(800.0);
    h.push(500.0);
    assert_eq!(h.len(), 2);
    assert_eq!(*h.get(0), 800.0);
    assert_eq!(*h.get(1), 500.0);
    h.clear();
    assert!(h.is_empty());
    assert_eq!(h.len(), 0);
}

#[test]
fn controller_counts_events() {
    let mut c = Controller::new("DAPUR");
    assert_eq!(c.name, "DAPUR");
    for s in [LeakStatus::Aman, LeakStatus::Waspada, LeakStatus::Bahaya, LeakStatus::Waspada].iter() {
        c.process(s);
    }
    assert_eq!(c.total_warnings, 2);
    assert_eq!(c.total_dangers, 1);
    c.process(&LeakStatus::Aman);
    assert_eq!((c.total_warnings, c.total_dangers), (2, 1));
}

#[test]
fn controller_messages() {
    let c = Controller::new("KAMAR");
    assert_eq!(c.action_message(&LeakStatus::Aman), "MCB KAMAR normal.");
    assert_eq!(c.action_message(&LeakStatus::Waspada), "Pantau MCB KAMAR! Ada indikasi kebocoran.");
    assert_eq!(c.action_message(&LeakStatus::Bahaya), "SEGERA MATIKAN MCB KAMAR! Cek instalasi!");
}

#[test]
fn three_branch_controllers() {
    let cs = branch_controllers();
    let names: Vec<&str> = cs.iter().map(|c| c.name.as_str()).collect();
    assert_eq!(names, vec!["DAPUR", "KAMAR", "R.TAMU"]);
    assert!(cs.iter().all(|c| c.total_warnings == 0 && c.total_dangers == 0));
}

#[test]
fn process_statuses_per_branch() {
    let mut cs = branch_controllers();
    process_statuses(&mut cs, &vec![LeakStatus::Waspada, LeakStatus::Aman, LeakStatus::Bahaya]);
    process_statuses(&mut cs, &vec![LeakStatus::Waspada, LeakStatus::Bahaya]);
    assert_eq!((cs[0].total_warnings, cs[0].total_dangers), (2, 0));
    assert_eq!((cs[1].total_warnings, cs[1].total_dangers), (0, 1));
    assert_eq!((cs[2].total_warnings, cs[2].total_dangers), (0, 1));
}

#[test]
fn simulation_schedule_values() {
    assert_eq!(simulation_step(0, 0), SimStep { voltage_step: 0, current_step: 0, leak: SimLeak::Safe(0) });
    assert_eq!(simulation_step(1, 2), SimStep { voltage_step: 3, current_step: 17, leak: SimLeak::Danger(4) });
    assert_eq!(simulation_step(2, 0), SimStep { voltage_step: 4, current_step: 6, leak: SimLeak::Warning(6) });
    assert_eq!(simulation_step(2, 1), SimStep { voltage_step: 7, current_step: 3, leak: SimLeak::Danger(3) });
    assert_eq!(simulation_step(1, 1), SimStep { voltage_step: 0, current_step: 0, leak: SimLeak::Warning(6) });
}

#[test]
fn menu_numbers() {
    assert_eq!(menu_choice(1), MenuChoice::Manual);
    assert_eq!(menu_choice(2), MenuChoice::Simulate);
    assert_eq!(menu_choice(3), MenuChoice::Inject);
    assert_eq!(menu_choice(4), MenuChoice::Quit);
    assert_eq!(menu_choice(0), MenuChoice::Invalid);
    assert_eq!(menu_choice(5), MenuChoice::Invalid);
}

#[test]
fn injection_decisions() {
    assert_eq!(inject_request(4), InjectRequest::ResetAll);
    assert_eq!(inject_request(1), InjectRequest::ChooseBranch);
    assert_eq!(inject_request(9), InjectRequest::ChooseBranch);
    assert_eq!(inject_action(1, 2, 3), InjectAction::Apply { branch: 1, kind: InjectKind::Warning });
    assert_eq!(inject_action(2, 3, 3), InjectAction::Apply { branch: 2, kind: InjectKind::Danger });
    assert_eq!(inject_action(3, 1, 3), InjectAction::Apply { branch: 0, kind: InjectKind::Reset });
    assert_eq!(inject_action(1, 0, 3), InjectAction::InvalidBranch);
    assert_eq!(inject_action(1, 4, 3), InjectAction::InvalidBranch);
    assert_eq!(inject_action(7, 4, 3), InjectAction::InvalidBranch);
    assert_eq!(inject_action(7, 2, 3), InjectAction::InvalidScenario);
    assert_eq!(InjectKind::Warning.leak_ma(), 18);
    assert_eq!(InjectKind::Danger.leak_ma(), 30);
    assert_eq!(InjectKind::Reset.leak_ma(), 1);
}

#[test]
fn yes_no_answers() {
    assert_eq!(yes_no("y\n"), Some(true));
    assert_eq!(yes_no("  YA \n"), Some(true));
    assert_eq!(yes_no("N"), Some(false));
    assert_eq!(yes_no("\tTidak\r\n"), Some(false));
    assert_eq!(yes_no("yes"), None);
    assert_eq!(yes_no(""), None);
    assert_eq!(answer_of(&"ya".to_string()), Some(true));
    assert_eq!(answer_of(&"Y".to_string()), None);
}

#[test]
fn numbers_typed() {
    assert_eq!(read_number("3\n"), Some(3));
    assert_eq!(read_number("  +42  "), Some(42));
    assert_eq!(read_number("-1"), None);
    assert_eq!(read_number("+"), None);
    assert_eq!(read_number(""), None);
    assert_eq!(read_number("1x"), None);
    assert_eq!(read_number("99999999999999999999999999"), None);
}

#[test]
fn validity_badges() {
    assert_eq!(validity_badge(true), ("#16a34a", "Valid"));
    assert_eq!(validity_badge(false), ("#dc2626", "ERROR"));
}

#[test]
fn alarm_rows_list_unsafe_branches() {
    assert_eq!(alarm_branches(&vec![Aman, Bahaya, Waspada]), vec![1, 2]);
    assert_eq!(alarm_branches(&vec![Aman, Aman, Aman]), Vec::<usize>::new());
    let s = vec![Waspada, Aman, Aman];
    assert_eq!(alarm_branches(&s).is_empty(), overall_status(&s) == Aman);
}

#[test]
fn numbers_with_unicode_spaces() {
    assert_eq!(read_number("\u{3000}7\u{a0}"), Some(7));
    assert_eq!(read_number("\u{85}12\u{2029}"), Some(12));
    assert_eq!(read_number("\u{200b}5"), None);
}
