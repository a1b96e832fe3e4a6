use heater_control::menu::{
    action_at, menu_size, ButtonEvent, CustomItem, FloatEdit, FloatField, KeyRepeat, Menu, MenuId,
    MenuItemAction, MenuState, PidAutoTuneInProgressEnum, PidUpdate, RepeatState, SettingsUpdate,
    TargetUpdate, Updates, ACTION_MESSAGE, BTN_DOWN, BTN_ENTER, BTN_UP, DEFAULT_BTN_DELAY,
};
use heater_control::storage::StorageData;
use heater_control::temperature::{
    TemperatureAutoCalibrateState, TemperatureProfileAState, TemperatureProfileEnum,
};

fn stored(lead: i16, offset: i16) -> StorageData {
    StorageData {
        pid: false,
        pid_p: 1,
        pid_i: 2,
        pid_d: 3,
        temp_wait_time: 4,
        temp_extra_time: 5,
        temp_lead_offset: lead,
        temp_offset: offset,
        ..StorageData::default()
    }
}

fn menu() -> Menu {
    Menu::new(&stored(6, 7))
}

fn open(m: &mut Menu, path: &[u8]) {
    for downs in path {
        for _ in 0..*downs {
            assert_eq!(m.on_down(1), None);
        }
        m.on_enter();
    }
}

fn at(m: &Menu) -> (MenuId, u8) {
    let s: MenuState = m.snapshot();
    (s.menu, s.position)
}

const NOTHING: Updates = Updates { target: None, pid: None, settings: None };

#[test]
fn codes_have_their_values() {
    assert_eq!((BTN_UP, BTN_ENTER, BTN_DOWN, ACTION_MESSAGE), (1, 2, 3, 4));
    assert_eq!(DEFAULT_BTN_DELAY, 10);
}

#[test]
fn pages_have_their_items() {
    assert_eq!(menu_size(MenuId::Top), 1);
    assert_eq!(menu_size(MenuId::Main), 4);
    assert_eq!(menu_size(MenuId::TargetTemp), 3);
    assert_eq!(menu_size(MenuId::Pid), 4);
    assert_eq!(menu_size(MenuId::PidManual), 4);
    assert_eq!(menu_size(MenuId::PidAutoTune), 4);
    assert_eq!(menu_size(MenuId::Settings), 5);
    assert_eq!(menu_size(MenuId::PidP), 1);
    assert_eq!(action_at(MenuId::Top, 0), MenuItemAction::OpenMenu(MenuId::Main));
    assert_eq!(action_at(MenuId::Main, 1), MenuItemAction::OpenMenu(MenuId::Pid));
    assert_eq!(action_at(MenuId::Main, 3), MenuItemAction::Back);
    assert_eq!(action_at(MenuId::Pid, 0), MenuItemAction::Custom(CustomItem::PidUsePid));
    assert_eq!(action_at(MenuId::PidAutoTune, 0), MenuItemAction::Custom(CustomItem::PidAutoTune));
    assert_eq!(action_at(MenuId::PidAutoTune, 2), MenuItemAction::Nothing);
    assert_eq!(action_at(MenuId::Settings, 3), MenuItemAction::OpenMenu(MenuId::SettingsTempLeadOffset));
    assert_eq!(action_at(MenuId::Settings, 4), MenuItemAction::Back);
    assert_eq!(action_at(MenuId::SettingsExtraTime, 0), MenuItemAction::Custom(CustomItem::ExtraTime));
}

#[test]
fn new_menu_stands_on_the_top_page() {
    let m = menu();
    let s = m.snapshot();
    assert_eq!((s.menu, s.position), (MenuId::Top, 0));
    assert_eq!(s.values.target_temp, 0);
    assert_eq!(s.values.profile, TemperatureProfileEnum::Static);
    assert!(!s.values.pid);
    assert_eq!((s.values.pid_p, s.values.pid_i, s.values.pid_d), (1, 2, 3));
    assert_eq!((s.values.temp_wait_time, s.values.temp_extra_time), (4, 5));
    assert_eq!((s.values.temp_lead_offset, s.values.temp_offset), (6, 7));
    assert_eq!(s.values.pid_autotune_inprogress, PidAutoTuneInProgressEnum::Idle);
    let mut m = m;
    assert_eq!(m.send_updates(), NOTHING);
}

#[test]
fn cursor_moves_round_the_page() {
    let mut m = menu();
    m.on_enter();
    assert_eq!(at(&m), (MenuId::Main, 0));
    assert_eq!(m.on_up(1), None);
    assert_eq!(at(&m), (MenuId::Main, 3));
    assert_eq!(m.on_down(1), None);
    assert_eq!(at(&m), (MenuId::Main, 0));
    assert_eq!(m.on_down(5), None);
    assert_eq!(at(&m), (MenuId::Main, 1));
    assert_eq!(m.on_up(1), None);
    assert_eq!(at(&m), (MenuId::Main, 0));
    // On the top page, with its single item, the cursor stays.
    let mut m = menu();
    assert_eq!(m.on_up(1), None);
    assert_eq!(at(&m), (MenuId::Top, 0));
    assert_eq!(m.on_down(1), None);
    assert_eq!(at(&m), (MenuId::Top, 0));
}

#[test]
fn back_returns_to_the_top_page() {
    let mut m = menu();
    open(&mut m, &[0, 2]);
    assert_eq!(at(&m), (MenuId::Settings, 0));
    for _ in 0..4 {
        m.on_down(1);
    }
    assert_eq!(at(&m), (MenuId::Settings, 4));
    m.on_enter();
    assert_eq!(at(&m), (MenuId::Top, 0));
}

#[test]
fn static_target_steps_wrap_and_enter_selects_the_strategy() {
    let mut m = menu();
    open(&mut m, &[0, 0, 0]);
    assert_eq!(at(&m), (MenuId::TargetTempStatic, 0));
    assert_eq!(m.on_down(5), None);
    assert_eq!(m.snapshot().values.target_temp, 65_531);
    assert_eq!(m.on_up(10), None);
    assert_eq!(m.snapshot().values.target_temp, 5);
    assert_eq!(m.on_up(200), None);
    assert_eq!(m.snapshot().values.target_temp, 205);
    assert_eq!(at(&m), (MenuId::TargetTempStatic, 0));
    m.on_enter();
    assert_eq!(at(&m), (MenuId::Top, 0));
    let updates = m.send_updates();
    assert_eq!(
        updates,
        Updates {
            target: Some(TargetUpdate { target_temp: 205, profile: TemperatureProfileEnum::Static }),
            pid: None,
            settings: None,
        }
    );
    assert_eq!(m.send_updates(), NOTHING);
}

#[test]
fn profile_page_selects_the_ramp_profile() {
    let mut m = menu();
    open(&mut m, &[0, 0, 1]);
    assert_eq!(at(&m), (MenuId::TargetTempProfileA, 0));
    m.on_up(240);
    m.on_enter();
    assert_eq!(
        m.send_updates().target,
        Some(TargetUpdate {
            target_temp: 240,
            profile: TemperatureProfileEnum::ProfileA { state: TemperatureProfileAState::FirstRamp },
        })
    );
}

#[test]
fn pid_switch_toggles_and_keeps_its_flag() {
    let mut m = menu();
    open(&mut m, &[0, 1]);
    assert_eq!(at(&m), (MenuId::Pid, 0));
    m.on_enter();
    assert_eq!(at(&m), (MenuId::Pid, 0));
    assert!(m.snapshot().values.pid);
    let expected = Some(PidUpdate { pid: true, pid_p: 1, pid_i: 2, pid_d: 3 });
    assert_eq!(m.send_updates().pid, expected);
    // The flag of the switch is not lowered: the gains go out again.
    assert_eq!(m.send_updates().pid, expected);
    // Up and down move the cursor on this item.
    assert_eq!(m.on_up(1), None);
    assert_eq!(at(&m), (MenuId::Pid, 3));
    assert_eq!(m.on_down(1), None);
    assert_eq!(at(&m), (MenuId::Pid, 0));
    assert_eq!(m.on_down(1), None);
    assert_eq!(at(&m), (MenuId::Pid, 1));
}

#[test]
fn gain_pages_ask_for_a_step_and_take_the_result() {
    let mut m = menu();
    open(&mut m, &[0, 1, 1, 0]);
    assert_eq!(at(&m), (MenuId::PidP, 0));
    assert_eq!(
        m.on_up(5),
        Some(FloatEdit { field: FloatField::PidP, increase: true, amount: 5 })
    );
    m.store_float(FloatField::PidP, 0.05f32.to_bits());
    assert_eq!(
        m.on_down(2),
        Some(FloatEdit { field: FloatField::PidP, increase: false, amount: 2 })
    );
    m.store_float(FloatField::PidP, 0.03f32.to_bits());
    assert_eq!(at(&m), (MenuId::PidP, 0));
    m.on_enter();
    assert_eq!(at(&m), (MenuId::Top, 0));
    assert_eq!(
        m.send_updates(),
        Updates {
            target: None,
            pid: Some(PidUpdate { pid: false, pid_p: 0.03f32.to_bits(), pid_i: 2, pid_d: 3 }),
            settings: None,
        }
    );
    assert_eq!(m.send_updates(), NOTHING);

    let mut m = menu();
    open(&mut m, &[0, 1, 1, 2]);
    assert_eq!(at(&m), (MenuId::PidD, 0));
    assert_eq!(
        m.on_up(1),
        Some(FloatEdit { field: FloatField::PidD, increase: true, amount: 1 })
    );
    let mut m = menu();
    open(&mut m, &[0, 1, 1, 1]);
    assert_eq!(
        m.on_down(1),
        Some(FloatEdit { field: FloatField::PidI, increase: false, amount: 1 })
    );
}

#[test]
fn settings_pages_change_times_and_offsets() {
    let mut m = menu();
    open(&mut m, &[0, 2, 0]);
    assert_eq!(at(&m), (MenuId::SettingsWaitTime, 0));
    assert_eq!(
        m.on_up(3),
        Some(FloatEdit { field: FloatField::WaitTime, increase: true, amount: 3 })
    );
    m.store_float(FloatField::WaitTime, 13.0f32.to_bits());
    m.on_enter();
    open(&mut m, &[0, 2, 1]);
    assert_eq!(
        m.on_down(1),
        Some(FloatEdit { field: FloatField::ExtraTime, increase: false, amount: 1 })
    );
    m.store_float(FloatField::ExtraTime, 1.0f32.to_bits());
    m.on_enter();
    open(&mut m, &[0, 2, 2]);
    assert_eq!(at(&m), (MenuId::SettingsTempOffset, 0));
    assert_eq!(m.on_up(10), None);
    assert_eq!(m.on_down(30), None);
    m.on_enter();
    open(&mut m, &[0, 2, 3]);
    assert_eq!(at(&m), (MenuId::SettingsTempLeadOffset, 0));
    assert_eq!(m.on_up(4), None);
    m.on_enter();
    assert_eq!(
        m.send_updates(),
        Updates {
            target: None,
            pid: None,
            settings: Some(SettingsUpdate {
                wait_time: 13.0f32.to_bits(),
                extra_time: 1.0f32.to_bits(),
                temp_lead_offset: 10,
                temp_offset: -13,
            }),
        }
    );
    assert_eq!(m.send_updates(), NOTHING);
}

#[test]
fn offset_steps_are_refused_at_the_end_of_the_range() {
    let mut m = Menu::new(&stored(i16::MIN + 3, i16::MAX - 3));
    assert!(m.can_serve(BTN_UP, 255));
    open(&mut m, &[0, 2, 2]);
    assert!(m.can_serve(BTN_UP, 3));
    assert!(!m.can_serve(BTN_UP, 4));
    assert!(m.can_serve(BTN_DOWN, 255));
    assert!(m.can_serve(BTN_ENTER, 255));
    m.on_up(3);
    assert_eq!(m.snapshot().values.temp_offset, i16::MAX);
    m.on_enter();
    open(&mut m, &[0, 2, 3]);
    assert!(m.can_serve(BTN_DOWN, 3));
    assert!(!m.can_serve(BTN_DOWN, 4));
    assert!(m.can_serve(BTN_UP, 255));
    m.on_down(3);
    assert_eq!(m.snapshot().values.temp_lead_offset, i16::MIN);
}

#[test]
fn tuning_page_starts_aborts_and_closes_the_run() {
    let mut m = menu();
    open(&mut m, &[0, 1, 2]);
    assert_eq!(at(&m), (MenuId::PidAutoTune, 0));
    m.on_up(9);
    m.on_up(9);
    m.on_up(9);
    assert_eq!(m.on_up(1), None);
    assert_eq!(m.on_down(1), None);
    assert_eq!(at(&m), (MenuId::PidAutoTune, 0));
    // Start.
    m.on_enter();
    assert_eq!(at(&m), (MenuId::PidAutoTune, 0));
    assert_eq!(m.snapshot().values.pid_autotune_inprogress, PidAutoTuneInProgressEnum::InProgress);
    let u = m.send_updates();
    assert_eq!(
        u.target,
        Some(TargetUpdate {
            target_temp: 0,
            profile: TemperatureProfileEnum::AutoCalibrate {
                state: TemperatureAutoCalibrateState::FirstRamp
            },
        })
    );
    assert_eq!(u.pid, Some(PidUpdate { pid: false, pid_p: 1, pid_i: 2, pid_d: 3 }));
    // Abort.
    m.on_enter();
    assert_eq!(at(&m), (MenuId::Top, 0));
    assert_eq!(m.snapshot().values.pid_autotune_inprogress, PidAutoTuneInProgressEnum::Idle);
    assert_eq!(
        m.send_updates().target,
        Some(TargetUpdate { target_temp: 0, profile: TemperatureProfileEnum::Static })
    );
}

#[test]
fn tuning_reports_are_taken_over() {
    let mut m = menu();
    open(&mut m, &[0, 1, 2]);
    m.on_enter();
    m.send_updates();
    m.on_tune_report(4, 10, 20, 30, false);
    let s = m.snapshot();
    assert_eq!(s.values.pid_autotune_iteration, 4);
    assert_eq!(s.values.pid_autotune_inprogress, PidAutoTuneInProgressEnum::InProgress);
    let u = m.send_updates();
    assert_eq!(u.target, None);
    assert_eq!(u.pid, Some(PidUpdate { pid: false, pid_p: 10, pid_i: 20, pid_d: 30 }));
    m.on_tune_report(12, 11, 21, 31, true);
    let s = m.snapshot();
    assert_eq!(s.values.pid_autotune_inprogress, PidAutoTuneInProgressEnum::Done);
    assert_eq!((s.menu, s.position), (MenuId::PidAutoTune, 0));
    let u = m.send_updates();
    assert_eq!(
        u.target,
        Some(TargetUpdate { target_temp: 0, profile: TemperatureProfileEnum::Static })
    );
    assert_eq!(u.pid, Some(PidUpdate { pid: true, pid_p: 11, pid_i: 21, pid_d: 31 }));
    // Close.
    m.on_enter();
    assert_eq!(at(&m), (MenuId::Top, 0));
    assert_eq!(m.snapshot().values.pid_autotune_inprogress, PidAutoTuneInProgressEnum::Idle);
}

#[test]
fn key_repeat_starts_at_rest() {
    let k = KeyRepeat::new();
    assert_eq!(
        k.snapshot(),
        RepeatState { last_action: 0, counter: 0, delay: 10, delay_counter: 0 }
    );
}

#[test]
fn fresh_press_counts_only_after_an_idle_round() {
    let mut k = KeyRepeat::new();
    assert_eq!(k.on_event(ButtonEvent::Pressed(1)), (1, 1));
    assert_eq!(k.on_event(ButtonEvent::Pressed(3)), (0, 1));
    assert_eq!(k.on_event(ButtonEvent::Pressed(3)), (3, 1));
    assert_eq!(k.on_event(ButtonEvent::Message), (4, 1));
    assert_eq!(k.on_event(ButtonEvent::Pressed(2)), (0, 1));
    assert_eq!(k.on_event(ButtonEvent::Tick { held: 0 }), (0, 1));
    assert_eq!(k.on_event(ButtonEvent::Pressed(2)), (2, 1));
}

#[test]
fn held_button_repeats_faster_and_in_larger_steps() {
    let mut k = KeyRepeat::new();
    assert_eq!(k.on_event(ButtonEvent::Pressed(1)), (1, 1));
    let mut amounts = Vec::new();
    for _ in 0..36 {
        let (action, amount) = k.on_event(ButtonEvent::Tick { held: 1 });
        assert_eq!(action, 1);
        amounts.push(amount);
    }
    let mut expected = Vec::new();
    // The delay falls by one every third tick: 10 10 9 9 9 8 ...
    let mut delay = 10u8;
    for tick in 1..=36 {
        if tick % 3 == 0 {
            delay = delay.saturating_sub(1);
        }
        expected.push(match delay {
            9.. => 1,
            7.. => 2,
            5.. => 5,
            2.. => 10,
            _ => 20,
        });
    }
    assert_eq!(amounts, expected);
    assert_eq!(amounts[35], 20);
    assert_eq!(k.snapshot().delay, 0);
    // Letting go restores the default.
    assert_eq!(k.on_event(ButtonEvent::Tick { held: 0 }), (0, 1));
    assert_eq!(k.snapshot().delay, 10);
    assert_eq!(k.snapshot().counter, 0);
}

#[test]
fn delay_counter_runs_up_to_the_delay() {
    let mut k = KeyRepeat::new();
    let mut seen = Vec::new();
    for _ in 0..12 {
        k.on_event(ButtonEvent::Tick { held: 2 });
        seen.push(k.snapshot().delay_counter);
    }
    assert_eq!(seen, vec![1, 2, 3, 4, 5, 6, 7, 8, 0, 1, 2, 3]);
}
