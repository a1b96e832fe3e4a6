//! The three-button menu: where the cursor stands, which values the operator
//! has changed, and which messages those changes call for.
//!
//! Gains and times are single-precision numbers, kept as their bits. Stepping
//! one of them is arithmetic on such numbers, which the caller performs: the
//! menu says which value to step and in which direction, and takes the
//! result back.
use crate::storage::StorageData;
use crate::temperature::{
    TemperatureAutoCalibrateState,
    TemperatureProfileAState,
    TemperatureProfileEnum,
};
use vstd::prelude::*;

verus! {

/// Button code of "up".
pub const BTN_UP: u8 = 1;

/// Button code of "enter".
pub const BTN_ENTER: u8 = 2;

/// Button code of "down".
pub const BTN_DOWN: u8 = 3;

/// Action code of a message from the tuning run.
pub const ACTION_MESSAGE: u8 = 4;

/// Ticks between repeats when a button has just been pressed.
pub const DEFAULT_BTN_DELAY: u8 = 10;

/// The pages of the menu.
#[derive(Clone, Copy, Debug, PartialEq, Eq, Structural)]
pub enum MenuId {
    Top,
    Main,
    TargetTemp,
    TargetTempStatic,
    TargetTempProfileA,
    Pid,
    PidP,
    PidI,
    PidD,
    PidManual,
    PidAutoTune,
    Settings,
    SettingsWaitTime,
    SettingsExtraTime,
    SettingsTempOffset,
    SettingsTempLeadOffset,
}

/// The items that show a value and react to the buttons themselves.
#[derive(Clone, Copy, Debug, PartialEq, Eq, Structural)]
pub enum CustomItem {
    TargetTempStatic,
    TargetTempProfileA,
    PidP,
    PidI,
    PidD,
    PidAutoTune,
    PidUsePid,
    WaitTime,
    ExtraTime,
    TempOffset,
    TempLeadOffset,
}

/// What an item does when it is chosen.
#[derive(Clone, Copy, Debug, PartialEq, Eq, Structural)]
pub enum MenuItemAction {
    Nothing,
    MovePositionUp,
    MovePositionDown,
    OpenMenu(MenuId),
    Back,
    Custom(CustomItem),
}

/// State of the tuning run as the menu shows it.
#[derive(Clone, Copy, Debug, PartialEq, Eq, Structural)]
pub enum PidAutoTuneInProgressEnum {
    Idle,
    InProgress,
    Done,
}

/// The values that are single-precision numbers.
#[derive(Clone, Copy, Debug, PartialEq, Eq, Structural)]
pub enum FloatField {
    PidP,
    PidI,
    PidD,
    WaitTime,
    ExtraTime,
}

/// A step the caller has to apply to a single-precision value: `amount`
/// steps up or down.
#[derive(Clone, Copy, Debug, PartialEq, Eq, Structural)]
pub struct FloatEdit {
    pub field: FloatField,
    pub increase: bool,
    pub amount: u8,
}

/// A new target with its strategy.
#[derive(Clone, Copy, Debug, PartialEq, Eq, Structural)]
pub struct TargetUpdate {
    pub target_temp: u16,
    pub profile: TemperatureProfileEnum,
}

/// The PID switch and the three gains.
#[derive(Clone, Copy, Debug, PartialEq, Eq, Structural)]
pub struct PidUpdate {
    pub pid: bool,
    pub pid_p: u32,
    pub pid_i: u32,
    pub pid_d: u32,
}

/// The four profile settings.
#[derive(Clone, Copy, Debug, PartialEq, Eq, Structural)]
pub struct SettingsUpdate {
    pub wait_time: u32,
    pub extra_time: u32,
    pub temp_lead_offset: i16,
    pub temp_offset: i16,
}

/// The messages that the changed values call for: a target goes to the
/// control loop and the display, gains and settings to the control loop and
/// the store.
#[derive(Clone, Copy, Debug, PartialEq, Eq, Structural)]
pub struct Updates {
    pub target: Option<TargetUpdate>,
    pub pid: Option<PidUpdate>,
    pub settings: Option<SettingsUpdate>,
}

/// Number of items on a page.
pub open spec fn menu_len(menu: MenuId) -> int {
    match menu {
        MenuId::Main => 4,
        MenuId::TargetTemp => 3,
        MenuId::Pid => 4,
        MenuId::PidManual => 4,
        MenuId::PidAutoTune => 4,
        MenuId::Settings => 5,
        _ => 1,
    }
}

/// What the item at `position` of a page does.
pub open spec fn item_action(menu: MenuId, position: int) -> MenuItemAction {
    match menu {
        MenuId::Top => MenuItemAction::OpenMenu(MenuId::Main),
        MenuId::Main => if position == 0 {
            MenuItemAction::OpenMenu(MenuId::TargetTemp)
        } else if position == 1 {
            MenuItemAction::OpenMenu(MenuId::Pid)
        } else if position == 2 {
            MenuItemAction::OpenMenu(MenuId::Settings)
        } else {
            MenuItemAction::Back
        },
        MenuId::TargetTemp => if position == 0 {
            MenuItemAction::OpenMenu(MenuId::TargetTempStatic)
        } else if position == 1 {
            MenuItemAction::OpenMenu(MenuId::TargetTempProfileA)
        } else {
            MenuItemAction::Back
        },
        MenuId::TargetTempStatic => MenuItemAction::Custom(CustomItem::TargetTempStatic),
        MenuId::TargetTempProfileA => MenuItemAction::Custom(CustomItem::TargetTempProfileA),
        MenuId::Pid => if position == 0 {
            MenuItemAction::Custom(CustomItem::PidUsePid)
        } else if position == 1 {
            MenuItemAction::OpenMenu(MenuId::PidManual)
        } else if position == 2 {
            MenuItemAction::OpenMenu(MenuId::PidAutoTune)
        } else {
            MenuItemAction::Back
        },
        MenuId::PidP => MenuItemAction::Custom(CustomItem::PidP),
        MenuId::PidI => MenuItemAction::Custom(CustomItem::PidI),
        MenuId::PidD => MenuItemAction::Custom(CustomItem::PidD),
        MenuId::PidManual => if position == 0 {
            MenuItemAction::OpenMenu(MenuId::PidP)
        } else if position == 1 {
            MenuItemAction::OpenMenu(MenuId::PidI)
        } else if position == 2 {
            MenuItemAction::OpenMenu(MenuId::PidD)
        } else {
            MenuItemAction::Back
        },
        MenuId::PidAutoTune => if position == 0 {
            MenuItemAction::Custom(CustomItem::PidAutoTune)
        } else {
            MenuItemAction::Nothing
        },
        MenuId::Settings => if position == 0 {
            MenuItemAction::OpenMenu(MenuId::SettingsWaitTime)
        } else if position == 1 {
            MenuItemAction::OpenMenu(MenuId::SettingsExtraTime)
        } else if position == 2 {
            MenuItemAction::OpenMenu(MenuId::SettingsTempOffset)
        } else if position == 3 {
            MenuItemAction::OpenMenu(MenuId::SettingsTempLeadOffset)
        } else {
            MenuItemAction::Back
        },
        MenuId::SettingsWaitTime => MenuItemAction::Custom(CustomItem::WaitTime),
        MenuId::SettingsExtraTime => MenuItemAction::Custom(CustomItem::ExtraTime),
        MenuId::SettingsTempOffset => MenuItemAction::Custom(CustomItem::TempOffset),
        MenuId::SettingsTempLeadOffset => MenuItemAction::Custom(CustomItem::TempLeadOffset),
    }
}

/// The single-precision value behind an item, if it has one.
pub open spec fn float_field_of(item: CustomItem) -> Option<FloatField> {
    match item {
        CustomItem::PidP => Some(FloatField::PidP),
        CustomItem::PidI => Some(FloatField::PidI),
        CustomItem::PidD => Some(FloatField::PidD),
        CustomItem::WaitTime => Some(FloatField::WaitTime),
        CustomItem::ExtraTime => Some(FloatField::ExtraTime),
        _ => None,
    }
}

/// `value + amount` on the circle of 16-bit numbers.
pub open spec fn wrapped_up(value: u16, amount: u8) -> u16 {
    if value + amount > u16::MAX {
        (value + amount - 65536) as u16
    } else {
        (value + amount) as u16
    }
}

/// `value - amount` on the circle of 16-bit numbers.
pub open spec fn wrapped_down(value: u16, amount: u8) -> u16 {
    if value < amount {
        (value - amount + 65536) as u16
    } else {
        (value - amount) as u16
    }
}

/// The values the operator sets. Each comes with a flag that says whether it
/// has changed since the last messages went out.
#[derive(Clone, Copy, Debug, PartialEq, Eq, Structural)]
pub struct MenuValues {
    pub target_temp: u16,
    pub target_temp_changed: bool,
    pub profile: TemperatureProfileEnum,
    pub profile_changed: bool,
    pub pid: bool,
    pub pid_changed: bool,
    pub pid_p: u32,
    pub pid_p_changed: bool,
    pub pid_i: u32,
    pub pid_i_changed: bool,
    pub pid_d: u32,
    pub pid_d_changed: bool,
    pub pid_autotune_inprogress: PidAutoTuneInProgressEnum,
    pub pid_autotune_iteration: u8,
    pub temp_wait_time: u32,
    pub temp_wait_time_changed: bool,
    pub temp_extra_time: u32,
    pub temp_extra_time_changed: bool,
    pub temp_offset: i16,
    pub temp_offset_changed: bool,
    pub temp_lead_offset: i16,
    pub temp_lead_offset_changed: bool,
}

impl MenuValues {
    /// The state with the flag of a single-precision value raised.
    pub open spec fn with_float_changed(self, field: FloatField) -> MenuValues {
        match field {
            FloatField::PidP => MenuValues { pid_p_changed: true, ..self },
            FloatField::PidI => MenuValues { pid_i_changed: true, ..self },
            FloatField::PidD => MenuValues { pid_d_changed: true, ..self },
            FloatField::WaitTime => MenuValues { temp_wait_time_changed: true, ..self },
            FloatField::ExtraTime => MenuValues { temp_extra_time_changed: true, ..self },
        }
    }

    /// The state with a single-precision value replaced.
    pub open spec fn with_float(self, field: FloatField, bits: u32) -> MenuValues {
        match field {
            FloatField::PidP => MenuValues { pid_p: bits, ..self },
            FloatField::PidI => MenuValues { pid_i: bits, ..self },
            FloatField::PidD => MenuValues { pid_d: bits, ..self },
            FloatField::WaitTime => MenuValues { temp_wait_time: bits, ..self },
            FloatField::ExtraTime => MenuValues { temp_extra_time: bits, ..self },
        }
    }

    /// Whether up or down by `amount` on `item` keeps an offset inside the
    /// range of its type. Every other item takes every amount.
    pub open spec fn step_in_range(self, item: CustomItem, btn: u8, amount: u8) -> bool {
        match item {
            CustomItem::TempOffset => (btn == BTN_UP ==> self.temp_offset + amount <= i16::MAX)
                && (btn == BTN_DOWN ==> self.temp_offset - amount >= i16::MIN),
            CustomItem::TempLeadOffset => (btn == BTN_UP ==> self.temp_lead_offset + amount
                <= i16::MAX) && (btn == BTN_DOWN ==> self.temp_lead_offset - amount >= i16::MIN),
            _ => true,
        }
    }

    /// The plain action an item answers a button with.
    pub open spec fn item_reply(self, item: CustomItem, btn: u8) -> MenuItemAction {
        if btn == BTN_ENTER {
            match item {
                CustomItem::PidUsePid => MenuItemAction::Nothing,
                CustomItem::PidAutoTune => if self.pid_autotune_inprogress
                    == PidAutoTuneInProgressEnum::Idle {
                    MenuItemAction::Nothing
                } else {
                    MenuItemAction::Back
                },
                _ => MenuItemAction::Back,
            }
        } else if item == CustomItem::PidUsePid && btn == BTN_UP {
            MenuItemAction::MovePositionUp
        } else if item == CustomItem::PidUsePid && btn == BTN_DOWN {
            MenuItemAction::MovePositionDown
        } else {
            MenuItemAction::Nothing
        }
    }

    /// The step an item asks the caller to apply to its single-precision
    /// value.
    pub open spec fn item_edit(self, item: CustomItem, btn: u8, amount: u8) -> Option<FloatEdit> {
        match float_field_of(item) {
            Some(field) => if btn == BTN_UP || btn == BTN_DOWN {
                Some(FloatEdit { field, increase: btn == BTN_UP, amount })
            } else {
                None
            },
            None => None,
        }
    }

    /// The values after an item has served a button, before its reply is
    /// carried out.
    pub open spec fn after_item(self, item: CustomItem, btn: u8, amount: u8) -> MenuValues {
        if btn == BTN_UP || btn == BTN_DOWN {
            match item {
                CustomItem::TargetTempStatic | CustomItem::TargetTempProfileA => MenuValues {
                    target_temp: if btn == BTN_UP {
                        wrapped_up(self.target_temp, amount)
                    } else {
                        wrapped_down(self.target_temp, amount)
                    },
                    target_temp_changed: true,
                    ..self
                },
                CustomItem::TempOffset => MenuValues {
                    temp_offset: if btn == BTN_UP {
                        (self.temp_offset + amount) as i16
                    } else {
                        (self.temp_offset - amount) as i16
                    },
                    temp_offset_changed: true,
                    ..self
                },
                CustomItem::TempLeadOffset => MenuValues {
                    temp_lead_offset: if btn == BTN_UP {
                        (self.temp_lead_offset + amount) as i16
                    } else {
                        (self.temp_lead_offset - amount) as i16
                    },
                    temp_lead_offset_changed: true,
                    ..self
                },
                CustomItem::PidUsePid | CustomItem::PidAutoTune => self,
                _ => match float_field_of(item) {
                    Some(field) => self.with_float_changed(field),
                    None => self,
                },
            }
        } else if btn == BTN_ENTER {
            match item {
                CustomItem::TargetTempStatic => MenuValues {
                    profile: TemperatureProfileEnum::Static,
                    profile_changed: true,
                    ..self
                },
                CustomItem::TargetTempProfileA => MenuValues {
                    profile: TemperatureProfileEnum::ProfileA {
                        state: TemperatureProfileAState::FirstRamp,
                    },
                    profile_changed: true,
                    ..self
                },
                CustomItem::PidUsePid => MenuValues { pid: !self.pid, pid_changed: true, ..self },
                CustomItem::PidAutoTune => match self.pid_autotune_inprogress {
                    PidAutoTuneInProgressEnum::Idle => MenuValues {
                        pid_autotune_inprogress: PidAutoTuneInProgressEnum::InProgress,
                        pid: false,
                        pid_changed: true,
                        profile: TemperatureProfileEnum::AutoCalibrate {
                            state: TemperatureAutoCalibrateState::FirstRamp,
                        },
                        profile_changed: true,
                        ..self
                    },
                    PidAutoTuneInProgressEnum::InProgress => MenuValues {
                        pid_autotune_inprogress: PidAutoTuneInProgressEnum::Idle,
                        pid: false,
                        pid_changed: true,
                        profile: TemperatureProfileEnum::Static,
                        profile_changed: true,
                        target_temp: 0,
                        target_temp_changed: true,
                        ..self
                    },
                    PidAutoTuneInProgressEnum::Done => MenuValues {
                        pid_autotune_inprogress: PidAutoTuneInProgressEnum::Idle,
                        ..self
                    },
                },
                _ => self,
            }
        } else {
            self
        }
    }

    /// The state after a report of the tuning run: the gains are taken over,
    /// and a finished run switches the PID on and the heater to a static
    /// target of 0.
    pub open spec fn after_tune_report(
        self,
        iteration: u8,
        pid_p: u32,
        pid_i: u32,
        pid_d: u32,
        done: bool,
    ) -> MenuValues {
        let taken = MenuValues {
            pid_autotune_iteration: iteration,
            pid_p,
            pid_p_changed: true,
            pid_i,
            pid_i_changed: true,
            pid_d,
            pid_d_changed: true,
            ..self
        };
        if done {
            MenuValues {
                pid: true,
                pid_changed: true,
                profile: TemperatureProfileEnum::Static,
                profile_changed: true,
                target_temp: 0,
                target_temp_changed: true,
                pid_autotune_inprogress: PidAutoTuneInProgressEnum::Done,
                ..taken
            }
        } else {
            taken
        }
    }

    /// The messages that the raised flags call for.
    pub open spec fn pending(self) -> Updates {
        Updates {
            target: if self.target_temp_changed || self.profile_changed {
                Some(TargetUpdate { target_temp: self.target_temp, profile: self.profile })
            } else {
                None
            },
            pid: if self.pid_changed || self.pid_p_changed || self.pid_i_changed
                || self.pid_d_changed {
                Some(
                    PidUpdate {
                        pid: self.pid,
                        pid_p: self.pid_p,
                        pid_i: self.pid_i,
                        pid_d: self.pid_d,
                    },
                )
            } else {
                None
            },
            settings: if self.temp_wait_time_changed || self.temp_extra_time_changed
                || self.temp_offset_changed || self.temp_lead_offset_changed {
                Some(
                    SettingsUpdate {
                        wait_time: self.temp_wait_time,
                        extra_time: self.temp_extra_time,
                        temp_lead_offset: self.temp_lead_offset,
                        temp_offset: self.temp_offset,
                    },
                )
            } else {
                None
            },
        }
    }

    /// The state once the messages are out: every flag is lowered but that
    /// of the PID switch, which stays as it is.
    pub open spec fn after_updates(self) -> MenuValues {
        MenuValues {
            target_temp_changed: false,
            profile_changed: false,
            pid_p_changed: false,
            pid_i_changed: false,
            pid_d_changed: false,
            temp_wait_time_changed: false,
            temp_extra_time_changed: false,
            temp_offset_changed: false,
            temp_lead_offset_changed: false,
            ..self
        }
    }
}

/// Everything the menu remembers: the page, the cursor on it and the values.
#[derive(Clone, Copy, Debug, PartialEq, Eq, Structural)]
pub struct MenuState {
    pub menu: MenuId,
    pub position: u8,
    pub values: MenuValues,
}

impl MenuState {
    /// The cursor stands on an item of the page.
    pub open spec fn wf(self) -> bool {
        0 <= self.position < menu_len(self.menu)
    }

    /// What the item under the cursor does.
    pub open spec fn current_action(self) -> MenuItemAction {
        item_action(self.menu, self.position as int)
    }

    /// The state after a plain action: the cursor moves round the page, a
    /// page is opened at its first item, or the menu returns to the top.
    pub open spec fn after_action(self, action: MenuItemAction) -> MenuState {
        match action {
            MenuItemAction::Nothing => self,
            MenuItemAction::Custom(_) => self,
            MenuItemAction::MovePositionUp => MenuState {
                position: if self.position == 0 {
                    (menu_len(self.menu) - 1) as u8
                } else {
                    (self.position - 1) as u8
                },
                ..self
            },
            MenuItemAction::MovePositionDown => MenuState {
                position: if self.position == menu_len(self.menu) - 1 {
                    0
                } else {
                    (self.position + 1) as u8
                },
                ..self
            },
            MenuItemAction::OpenMenu(menu) => MenuState { menu, position: 0, ..self },
            MenuItemAction::Back => MenuState { menu: MenuId::Top, position: 0, ..self },
        }
    }

    /// Whether the button can be served where the cursor stands.
    pub open spec fn button_in_range(self, btn: u8, amount: u8) -> bool {
        match self.current_action() {
            MenuItemAction::Custom(item) => self.values.step_in_range(item, btn, amount),
            _ => true,
        }
    }

    /// The state after a button where the cursor stands: an item with a value
    /// serves the button itself, on every other item up and down move the
    /// cursor and enter carries out the item's action.
    pub open spec fn after_button(self, btn: u8, amount: u8) -> MenuState {
        match self.current_action() {
            MenuItemAction::Custom(item) => (MenuState {
                values: self.values.after_item(item, btn, amount),
                ..self
            }).after_action(self.values.item_reply(item, btn)),
            action => if btn == BTN_UP {
                self.after_action(MenuItemAction::MovePositionUp)
            } else if btn == BTN_DOWN {
                self.after_action(MenuItemAction::MovePositionDown)
            } else if btn == BTN_ENTER {
                self.after_action(action)
            } else {
                self
            },
        }
    }

    /// The step a button asks the caller to apply.
    pub open spec fn button_edit(self, btn: u8, amount: u8) -> Option<FloatEdit> {
        match self.current_action() {
            MenuItemAction::Custom(item) => self.values.item_edit(item, btn, amount),
            _ => None,
        }
    }
}

/// Number of items on a page.
pub fn menu_size(menu: MenuId) -> (r: u8)
    ensures
        r == menu_len(menu),
        r >= 1,
{
    match menu {
        MenuId::Main => 4,
        MenuId::TargetTemp => 3,
        MenuId::Pid => 4,
        MenuId::PidManual => 4,
        MenuId::PidAutoTune => 4,
        MenuId::Settings => 5,
        _ => 1,
    }
}

/// What the item at `position` of a page does.
pub fn action_at(menu: MenuId, position: u8) -> (r: MenuItemAction)
    ensures
        r == item_action(menu, position as int),
{
    match menu {
        MenuId::Top => MenuItemAction::OpenMenu(MenuId::Main),
        MenuId::Main => match position {
            0 => MenuItemAction::OpenMenu(MenuId::TargetTemp),
            1 => MenuItemAction::OpenMenu(MenuId::Pid),
            2 => MenuItemAction::OpenMenu(MenuId::Settings),
            _ => MenuItemAction::Back,
        },
        MenuId::TargetTemp => match position {
            0 => MenuItemAction::OpenMenu(MenuId::TargetTempStatic),
            1 => MenuItemAction::OpenMenu(MenuId::TargetTempProfileA),
            _ => MenuItemAction::Back,
        },
        MenuId::TargetTempStatic => MenuItemAction::Custom(CustomItem::TargetTempStatic),
        MenuId::TargetTempProfileA => MenuItemAction::Custom(CustomItem::TargetTempProfileA),
        MenuId::Pid => match position {
            0 => MenuItemAction::Custom(CustomItem::PidUsePid),
            1 => MenuItemAction::OpenMenu(MenuId::PidManual),
            2 => MenuItemAction::OpenMenu(MenuId::PidAutoTune),
            _ => MenuItemAction::Back,
        },
        MenuId::PidP => MenuItemAction::Custom(CustomItem::PidP),
        MenuId::PidI => MenuItemAction::Custom(CustomItem::PidI),
        MenuId::PidD => MenuItemAction::Custom(CustomItem::PidD),
        MenuId::PidManual => match position {
            0 => MenuItemAction::OpenMenu(MenuId::PidP),
            1 => MenuItemAction::OpenMenu(MenuId::PidI),
            2 => MenuItemAction::OpenMenu(MenuId::PidD),
            _ => MenuItemAction::Back,
        },
        MenuId::PidAutoTune => match position {
            0 => MenuItemAction::Custom(CustomItem::PidAutoTune),
            _ => MenuItemAction::Nothing,
        },
        MenuId::Settings => match position {
            0 => MenuItemAction::OpenMenu(MenuId::SettingsWaitTime),
            1 => MenuItemAction::OpenMenu(MenuId::SettingsExtraTime),
            2 => MenuItemAction::OpenMenu(MenuId::SettingsTempOffset),
            3 => MenuItemAction::OpenMenu(MenuId::SettingsTempLeadOffset),
            _ => MenuItemAction::Back,
        },
        MenuId::SettingsWaitTime => MenuItemAction::Custom(CustomItem::WaitTime),
        MenuId::SettingsExtraTime => MenuItemAction::Custom(CustomItem::ExtraTime),
        MenuId::SettingsTempOffset => MenuItemAction::Custom(CustomItem::TempOffset),
        MenuId::SettingsTempLeadOffset => MenuItemAction::Custom(CustomItem::TempLeadOffset),
    }
}

/// The single-precision value behind an item, if it has one.
fn float_field(item: CustomItem) -> (r: Option<FloatField>)
    ensures
        r == float_field_of(item),
{
    match item {
        CustomItem::PidP => Some(FloatField::PidP),
        CustomItem::PidI => Some(FloatField::PidI),
        CustomItem::PidD => Some(FloatField::PidD),
        CustomItem::WaitTime => Some(FloatField::WaitTime),
        CustomItem::ExtraTime => Some(FloatField::ExtraTime),
        _ => None,
    }
}

impl MenuValues {
    /// The values of a menu that has just been opened: the stored settings,
    /// a static target of 0, no tuning run, nothing changed.
    pub open spec fn initial(
        pid: bool,
        pid_p: u32,
        pid_i: u32,
        pid_d: u32,
        temp_wait_time: u32,
        temp_extra_time: u32,
        temp_lead_offset: i16,
        temp_offset: i16,
    ) -> MenuValues {
        MenuValues {
            target_temp: 0,
            target_temp_changed: false,
            profile: TemperatureProfileEnum::Static,
            profile_changed: false,
            pid,
            pid_changed: false,
            pid_p,
            pid_p_changed: false,
            pid_i,
            pid_i_changed: false,
            pid_d,
            pid_d_changed: false,
            pid_autotune_inprogress: PidAutoTuneInProgressEnum::Idle,
            pid_autotune_iteration: 0,
            temp_wait_time,
            temp_wait_time_changed: false,
            temp_extra_time,
            temp_extra_time_changed: false,
            temp_offset,
            temp_offset_changed: false,
            temp_lead_offset,
            temp_lead_offset_changed: false,
        }
    }

    /// Raises the flag of a single-precision value.
    fn mark_float(&mut self, field: FloatField)
        ensures
            *final(self) == old(self).with_float_changed(field),
    {
        match field {
            FloatField::PidP => {
                self.pid_p_changed = true;
            },
            FloatField::PidI => {
                self.pid_i_changed = true;
            },
            FloatField::PidD => {
                self.pid_d_changed = true;
            },
            FloatField::WaitTime => {
                self.temp_wait_time_changed = true;
            },
            FloatField::ExtraTime => {
                self.temp_extra_time_changed = true;
            },
        }
    }

    /// Takes a report of the tuning run over.
    fn take_report(&mut self, iteration: u8, pid_p: u32, pid_i: u32, pid_d: u32, done: bool)
        ensures
            *final(self) == old(self).after_tune_report(iteration, pid_p, pid_i, pid_d, done),
    {
        self.pid_autotune_iteration = iteration;
        self.pid_p = pid_p;
        self.pid_p_changed = true;
        self.pid_i = pid_i;
        self.pid_i_changed = true;
        self.pid_d = pid_d;
        self.pid_d_changed = true;
        if done {
            self.pid = true;
            self.pid_changed = true;
            self.profile = TemperatureProfileEnum::Static;
            self.profile_changed = true;
            self.target_temp = 0;
            self.target_temp_changed = true;
            self.pid_autotune_inprogress = PidAutoTuneInProgressEnum::Done;
        }
    }

    /// Returns the messages that the raised flags call for and lowers the
    /// flags.
    fn take_updates(&mut self) -> (r: Updates)
        ensures
            r == old(self).pending(),
            *final(self) == old(self).after_updates(),
    {
        let target: Option<TargetUpdate> = if self.target_temp_changed || self.profile_changed {
            Some(TargetUpdate { target_temp: self.target_temp, profile: self.profile })
        } else {
            None
        };
        let pid: Option<PidUpdate> = if self.pid_changed || self.pid_p_changed
            || self.pid_i_changed || self.pid_d_changed {
            Some(
                PidUpdate { pid: self.pid, pid_p: self.pid_p, pid_i: self.pid_i, pid_d: self.pid_d },
            )
        } else {
            None
        };
        let settings: Option<SettingsUpdate> = if self.temp_wait_time_changed
            || self.temp_extra_time_changed || self.temp_offset_changed
            || self.temp_lead_offset_changed {
            Some(
                SettingsUpdate {
                    wait_time: self.temp_wait_time,
                    extra_time: self.temp_extra_time,
                    temp_lead_offset: self.temp_lead_offset,
                    temp_offset: self.temp_offset,
                },
            )
        } else {
            None
        };
        self.target_temp_changed = false;
        self.profile_changed = false;
        self.pid_p_changed = false;
        self.pid_i_changed = false;
        self.pid_d_changed = false;
        self.temp_wait_time_changed = false;
        self.temp_extra_time_changed = false;
        self.temp_offset_changed = false;
        self.temp_lead_offset_changed = false;
        Updates { target, pid, settings }
    }

    /// Replaces a single-precision value.
    fn set_float(&mut self, field: FloatField, bits: u32)
        ensures
            *final(self) == old(self).with_float(field, bits),
    {
        match field {
            FloatField::PidP => {
                self.pid_p = bits;
            },
            FloatField::PidI => {
                self.pid_i = bits;
            },
            FloatField::PidD => {
                self.pid_d = bits;
            },
            FloatField::WaitTime => {
                self.temp_wait_time = bits;
            },
            FloatField::ExtraTime => {
                self.temp_extra_time = bits;
            },
        }
    }

    /// Lets `item` serve up or down.
    fn step(&mut self, item: CustomItem, up: bool, amount: u8)
        requires
            old(self).step_in_range(
                item,
                if up {
                    BTN_UP
                } else {
                    BTN_DOWN
                },
                amount,
            ),
        ensures
            *final(self) == old(self).after_item(
                item,
                if up {
                    BTN_UP
                } else {
                    BTN_DOWN
                },
                amount,
            ),
    {
        match item {
            CustomItem::TargetTempStatic | CustomItem::TargetTempProfileA => {
                self.target_temp = if up {
                    self.target_temp.wrapping_add(amount as u16)
                } else {
                    self.target_temp.wrapping_sub(amount as u16)
                };
                self.target_temp_changed = true;
            },
            CustomItem::TempOffset => {
                self.temp_offset = if up {
                    self.temp_offset + amount as i16
                } else {
                    self.temp_offset - amount as i16
                };
                self.temp_offset_changed = true;
            },
            CustomItem::TempLeadOffset => {
                self.temp_lead_offset = if up {
                    self.temp_lead_offset + amount as i16
                } else {
                    self.temp_lead_offset - amount as i16
                };
                self.temp_lead_offset_changed = true;
            },
            CustomItem::PidUsePid | CustomItem::PidAutoTune => {},
            _ => {
                match float_field(item) {
                    Some(field) => {
                        self.mark_float(field);
                    },
                    None => {},
                }
            },
        }
    }

    /// Lets `item` serve enter.
    fn enter(&mut self, item: CustomItem)
        ensures
            *final(self) == old(self).after_item(item, BTN_ENTER, 1),
    {
        match item {
            CustomItem::TargetTempStatic => {
                self.profile = TemperatureProfileEnum::Static;
                self.profile_changed = true;
            },
            CustomItem::TargetTempProfileA => {
                self.profile = TemperatureProfileEnum::ProfileA {
                    state: TemperatureProfileAState::FirstRamp,
                };
                self.profile_changed = true;
            },
            CustomItem::PidUsePid => {
                self.pid = !self.pid;
                self.pid_changed = true;
            },
            CustomItem::PidAutoTune => {
                match self.pid_autotune_inprogress {
                    PidAutoTuneInProgressEnum::Idle => {
                        self.pid_autotune_inprogress = PidAutoTuneInProgressEnum::InProgress;
                        self.pid = false;
                        self.pid_changed = true;
                        self.profile = TemperatureProfileEnum::AutoCalibrate {
                            state: TemperatureAutoCalibrateState::FirstRamp,
                        };
                        self.profile_changed = true;
                    },
                    PidAutoTuneInProgressEnum::InProgress => {
                        self.pid_autotune_inprogress = PidAutoTuneInProgressEnum::Idle;
                        self.pid = false;
                        self.pid_changed = true;
                        self.profile = TemperatureProfileEnum::Static;
                        self.profile_changed = true;
                        self.target_temp = 0;
                        self.target_temp_changed = true;
                    },
                    PidAutoTuneInProgressEnum::Done => {
                        self.pid_autotune_inprogress = PidAutoTuneInProgressEnum::Idle;
                    },
                }
            },
            _ => {},
        }
    }

    /// The plain action `item` answers a button with.
    fn reply(&self, item: CustomItem, btn: u8) -> (r: MenuItemAction)
        ensures
            r == self.item_reply(item, btn),
    {
        if btn == BTN_ENTER {
            match item {
                CustomItem::PidUsePid => MenuItemAction::Nothing,
                CustomItem::PidAutoTune => match self.pid_autotune_inprogress {
                    PidAutoTuneInProgressEnum::Idle => MenuItemAction::Nothing,
                    _ => MenuItemAction::Back,
                },
                _ => MenuItemAction::Back,
            }
        } else {
            match item {
                CustomItem::PidUsePid => if btn == BTN_UP {
                    MenuItemAction::MovePositionUp
                } else if btn == BTN_DOWN {
                    MenuItemAction::MovePositionDown
                } else {
                    MenuItemAction::Nothing
                },
                _ => MenuItemAction::Nothing,
            }
        }
    }

    /// Lets `item` serve a button and returns its reply and the step it asks
    /// the caller to apply.
    fn call(&mut self, item: CustomItem, btn: u8, amount: u8) -> (r: (
        MenuItemAction,
        Option<FloatEdit>,
    ))
        requires
            old(self).step_in_range(item, btn, amount),
        ensures
            *final(self) == old(self).after_item(item, btn, amount),
            r.0 == old(self).item_reply(item, btn),
            r.1 == old(self).item_edit(item, btn, amount),
    {
        let reply: MenuItemAction = self.reply(item, btn);
        let mut edit: Option<FloatEdit> = None;
        if btn == BTN_UP || btn == BTN_DOWN {
            self.step(item, btn == BTN_UP, amount);
            match float_field(item) {
                Some(field) => {
                    edit = Some(FloatEdit { field, increase: btn == BTN_UP, amount });
                },
                None => {},
            }
        } else if btn == BTN_ENTER {
            proof {
                // What enter does is the same for every amount.
                assert(old(self).after_item(item, BTN_ENTER, 1) == old(self).after_item(
                    item,
                    btn,
                    amount,
                ));
            }
            self.enter(item);
        }
        (reply, edit)
    }
}

/// The menu.
pub struct Menu {
    state: MenuState,
}

impl View for Menu {
    type V = MenuState;

    closed spec fn view(&self) -> MenuState {
        self.state
    }
}

impl Menu {
    #[verifier::type_invariant]
    spec fn well_formed(self) -> bool {
        self.state.wf()
    }

    /// A menu on its top page, with the stored values and no change pending.
    pub fn new(startup_storage: &StorageData) -> (r: Self)
        ensures
            r@ == (MenuState {
                menu: MenuId::Top,
                position: 0,
                values: MenuValues::initial(
                    startup_storage.pid,
                    startup_storage.pid_p,
                    startup_storage.pid_i,
                    startup_storage.pid_d,
                    startup_storage.temp_wait_time,
                    startup_storage.temp_extra_time,
                    startup_storage.temp_lead_offset,
                    startup_storage.temp_offset,
                ),
            }),
            r@.wf(),
    {
        Menu {
            state: MenuState {
                menu: MenuId::Top,
                position: 0,
                values: MenuValues {
                    target_temp: 0,
                    target_temp_changed: false,
                    profile: TemperatureProfileEnum::Static,
                    profile_changed: false,
                    pid: startup_storage.pid,
                    pid_changed: false,
                    pid_p: startup_storage.pid_p,
                    pid_p_changed: false,
                    pid_i: startup_storage.pid_i,
                    pid_i_changed: false,
                    pid_d: startup_storage.pid_d,
                    pid_d_changed: false,
                    pid_autotune_inprogress: PidAutoTuneInProgressEnum::Idle,
                    pid_autotune_iteration: 0,
                    temp_wait_time: startup_storage.temp_wait_time,
                    temp_wait_time_changed: false,
                    temp_extra_time: startup_storage.temp_extra_time,
                    temp_extra_time_changed: false,
                    temp_offset: startup_storage.temp_offset,
                    temp_offset_changed: false,
                    temp_lead_offset: startup_storage.temp_lead_offset,
                    temp_lead_offset_changed: false,
                },
            },
        }
    }

    /// A copy of everything the menu remembers.
    pub fn snapshot(&self) -> (r: MenuState)
        ensures
            r == self@,
            r.wf(),
    {
        proof {
            use_type_invariant(self);
        }
        self.state
    }

    /// Whether `btn` with `amount` can be served where the cursor stands:
    /// it cannot where it would take an offset out of its range.
    pub fn can_serve(&self, btn: u8, amount: u8) -> (r: bool)
        ensures
            r == self@.button_in_range(btn, amount),
    {
        let s: MenuState = self.state;
        let value: i16 = match action_at(s.menu, s.position) {
            MenuItemAction::Custom(CustomItem::TempOffset) => s.values.temp_offset,
            MenuItemAction::Custom(CustomItem::TempLeadOffset) => s.values.temp_lead_offset,
            _ => {
                return true;
            },
        };
        if btn == BTN_UP {
            value <= i16::MAX - amount as i16
        } else if btn == BTN_DOWN {
            value >= i16::MIN + amount as i16
        } else {
            true
        }
    }

    /// Carries out a plain action.
    fn execute_action(&mut self, action: MenuItemAction)
        ensures
            final(self)@ == old(self)@.after_action(action),
    {
        proof {
            use_type_invariant(&*self);
        }
        let mut s: MenuState = self.state;
        let len: u8 = menu_size(s.menu);
        match action {
            MenuItemAction::Nothing => {},
            MenuItemAction::MovePositionUp => {
                if s.position == 0 {
                    s.position = len - 1;
                } else {
                    s.position = s.position - 1;
                }
            },
            MenuItemAction::MovePositionDown => {
                if s.position == len - 1 {
                    s.position = 0;
                } else {
                    s.position = s.position + 1;
                }
            },
            MenuItemAction::OpenMenu(x) => {
                s.menu = x;
                s.position = 0;
            },
            MenuItemAction::Back => {
                s.menu = MenuId::Top;
                s.position = 0;
            },
            MenuItemAction::Custom(_) => {},
        }
        self.state = s;
    }

    /// Serves a button where the cursor stands.
    fn on_button(&mut self, btn: u8, amount: u8) -> (r: Option<FloatEdit>)
        requires
            old(self)@.button_in_range(btn, amount),
        ensures
            final(self)@ == old(self)@.after_button(btn, amount),
            r == old(self)@.button_edit(btn, amount),
    {
        proof {
            use_type_invariant(&*self);
        }
        let mut s: MenuState = self.state;
        match action_at(s.menu, s.position) {
            MenuItemAction::Custom(x) => {
                let (action, edit) = s.values.call(x, btn, amount);
                self.state = s;
                self.execute_action(action);
                edit
            },
            x => {
                if btn == BTN_UP {
                    self.execute_action(MenuItemAction::MovePositionUp);
                } else if btn == BTN_DOWN {
                    self.execute_action(MenuItemAction::MovePositionDown);
                } else if btn == BTN_ENTER {
                    self.execute_action(x);
                }
                None
            },
        }
    }

    /// The up button: an item with a value is stepped up by `amount`, else
    /// the cursor moves up, from the first item to the last.
    pub fn on_up(&mut self, amount: u8) -> (r: Option<FloatEdit>)
        requires
            old(self)@.button_in_range(BTN_UP, amount),
        ensures
            final(self)@ == old(self)@.after_button(BTN_UP, amount),
            r == old(self)@.button_edit(BTN_UP, amount),
    {
        self.on_button(BTN_UP, amount)
    }

    /// The down button: an item with a value is stepped down by `amount`,
    /// else the cursor moves down, from the last item to the first.
    pub fn on_down(&mut self, amount: u8) -> (r: Option<FloatEdit>)
        requires
            old(self)@.button_in_range(BTN_DOWN, amount),
        ensures
            final(self)@ == old(self)@.after_button(BTN_DOWN, amount),
            r == old(self)@.button_edit(BTN_DOWN, amount),
    {
        self.on_button(BTN_DOWN, amount)
    }

    /// The enter button: the item under the cursor is carried out.
    pub fn on_enter(&mut self)
        ensures
            final(self)@ == old(self)@.after_button(BTN_ENTER, 1),
    {
        let _ = self.on_button(BTN_ENTER, 1);
    }

    /// Takes the result of a step on a single-precision value back.
    pub fn store_float(&mut self, field: FloatField, bits: u32)
        ensures
            final(self)@ == (MenuState {
                values: old(self)@.values.with_float(field, bits),
                ..old(self)@
            }),
    {
        proof {
            use_type_invariant(&*self);
        }
        let mut s: MenuState = self.state;
        s.values.set_float(field, bits);
        self.state = s;
    }

    /// Takes a report of the tuning run over.
    pub fn on_tune_report(&mut self, iteration: u8, pid_p: u32, pid_i: u32, pid_d: u32, done: bool)
        ensures
            final(self)@ == (MenuState {
                values: old(self)@.values.after_tune_report(iteration, pid_p, pid_i, pid_d, done),
                ..old(self)@
            }),
    {
        proof {
            use_type_invariant(&*self);
        }
        let mut s: MenuState = self.state;
        s.values.take_report(iteration, pid_p, pid_i, pid_d, done);
        self.state = s;
    }

    /// Returns the messages that the changed values call for and lowers the
    /// flags.
    pub fn send_updates(&mut self) -> (r: Updates)
        ensures
            r == old(self)@.values.pending(),
            final(self)@ == (MenuState {
                values: old(self)@.values.after_updates(),
                ..old(self)@
            }),
    {
        proof {
            use_type_invariant(&*self);
        }
        let mut s: MenuState = self.state;
        let updates: Updates = s.values.take_updates();
        self.state = s;
        updates
    }
}

/// What the button loop has seen.
#[derive(Clone, Copy, Debug, PartialEq, Eq, Structural)]
pub enum ButtonEvent {
    /// A button went down: 1, 2 or 3.
    Pressed(u8),
    /// The debounce time ran out; `held` is the button found down, 0 for
    /// none.
    Tick { held: u8 },
    /// A message from the tuning run was handled.
    Message,
}

/// What the key-repeat logic remembers.
#[derive(Clone, Copy, Debug, PartialEq, Eq, Structural)]
pub struct RepeatState {
    pub last_action: u8,
    pub counter: u8,
    pub delay: u8,
    pub delay_counter: u8,
}

/// Steps per repeat for a delay: the shorter the delay, the larger the
/// steps.
pub open spec fn amount_for(delay: u8) -> u8 {
    if delay >= 9 {
        1
    } else if delay >= 7 {
        2
    } else if delay >= 5 {
        5
    } else if delay >= 2 {
        10
    } else {
        20
    }
}

impl RepeatState {
    /// The counters stay within the default delay.
    pub open spec fn wf(self) -> bool {
        self.counter <= 2 && self.delay <= DEFAULT_BTN_DELAY && self.delay_counter
            <= DEFAULT_BTN_DELAY
    }

    /// The action an event stands for: a fresh press counts only after an
    /// idle round, a tick repeats the button that is held.
    pub open spec fn action_for(self, event: ButtonEvent) -> u8 {
        match event {
            ButtonEvent::Pressed(btn) => if self.last_action != 0 {
                0
            } else {
                btn
            },
            ButtonEvent::Tick { held } => held,
            ButtonEvent::Message => ACTION_MESSAGE,
        }
    }

    /// The state after an event: a fresh press and an idle tick restore the
    /// default delay, every third tick with a button held shortens it.
    pub open spec fn after_event(self, event: ButtonEvent) -> RepeatState {
        let action = self.action_for(event);
        match event {
            ButtonEvent::Pressed(_) => if self.last_action != 0 {
                RepeatState { last_action: action, ..self }
            } else {
                RepeatState { last_action: action, counter: 0, delay: DEFAULT_BTN_DELAY, ..self }
            },
            ButtonEvent::Tick { held } => if held != 0 {
                let delay = if self.counter + 1 > 2 && self.delay > 0 {
                    (self.delay - 1) as u8
                } else {
                    self.delay
                };
                RepeatState {
                    last_action: action,
                    counter: if self.counter + 1 > 2 {
                        0
                    } else {
                        (self.counter + 1) as u8
                    },
                    delay,
                    delay_counter: if self.delay_counter + 1 > delay {
                        0
                    } else {
                        (self.delay_counter + 1) as u8
                    },
                }
            } else {
                RepeatState { last_action: action, counter: 0, delay: DEFAULT_BTN_DELAY, ..self }
            },
            ButtonEvent::Message => RepeatState { last_action: action, ..self },
        }
    }
}

/// The key-repeat logic of the button loop.
pub struct KeyRepeat {
    state: RepeatState,
}

impl View for KeyRepeat {
    type V = RepeatState;

    closed spec fn view(&self) -> RepeatState {
        self.state
    }
}

impl KeyRepeat {
    #[verifier::type_invariant]
    spec fn well_formed(self) -> bool {
        self.state.wf()
    }

    /// Key repeat at rest.
    pub fn new() -> (r: Self)
        ensures
            r@ == (RepeatState {
                last_action: 0,
                counter: 0,
                delay: DEFAULT_BTN_DELAY,
                delay_counter: 0,
            }),
    {
        KeyRepeat {
            state: RepeatState {
                last_action: 0,
                counter: 0,
                delay: DEFAULT_BTN_DELAY,
                delay_counter: 0,
            },
        }
    }

    /// A copy of what the key-repeat logic remembers.
    pub fn snapshot(&self) -> (r: RepeatState)
        ensures
            r == self@,
            r.wf(),
    {
        proof {
            use_type_invariant(self);
        }
        self.state
    }

    /// Takes an event and returns the action it stands for and the number of
    /// steps that go with it.
    pub fn on_event(&mut self, event: ButtonEvent) -> (r: (u8, u8))
        ensures
            r.0 == old(self)@.action_for(event),
            final(self)@ == old(self)@.after_event(event),
            r.1 == amount_for(final(self)@.delay),
    {
        proof {
            use_type_invariant(&*self);
        }
        let mut s: RepeatState = self.state;
        let action: u8 = match event {
            ButtonEvent::Pressed(btn) => {
                if s.last_action != 0 {
                    0
                } else {
                    s.counter = 0;
                    s.delay = DEFAULT_BTN_DELAY;
                    btn
                }
            },
            ButtonEvent::Tick { held } => {
                if held != 0 {
                    s.counter = s.counter + 1;
                    if s.counter > 2 {
                        s.counter = 0;
                        s.delay = s.delay.saturating_sub(1);
                    }
                    s.delay_counter = s.delay_counter + 1;
                    if s.delay_counter > s.delay {
                        s.delay_counter = 0;
                    }
                } else {
                    s.counter = 0;
                    s.delay = DEFAULT_BTN_DELAY;
                }
                held
            },
            ButtonEvent::Message => ACTION_MESSAGE,
        };
        s.last_action = action;
        let amount: u8 = if s.delay >= 9 {
            1
        } else if s.delay >= 7 {
            2
        } else if s.delay >= 5 {
            5
        } else if s.delay >= 2 {
            10
        } else {
            20
        };
        self.state = s;
        (action, amount)
    }
}

/// Whatever the buttons do, the cursor stays on an item of its page.
pub proof fn lemma_cursor_stays_on_page(s: MenuState, btn: u8, amount: u8)
    requires
        s.wf(),
    ensures
        s.after_button(btn, amount).wf(),
{
}

/// Once the messages are out nothing is pending but, where the PID switch
/// was changed, the gains.
pub proof fn lemma_updates_clear_flags(v: MenuValues)
    ensures
        v.after_updates().pending().target.is_none(),
        v.after_updates().pending().settings.is_none(),
        !v.pid_changed ==> v.after_updates().pending().pid.is_none(),
{
}

/// A finished tuning run hands the tuned gains on with the PID switched on
/// and the heater set to a static target of 0; an unfinished one hands the
/// gains on and leaves the switch alone.
pub proof fn lemma_finished_tuning_is_handed_on(
    v: MenuValues,
    iteration: u8,
    pid_p: u32,
    pid_i: u32,
    pid_d: u32,
)
    ensures
        v.after_tune_report(iteration, pid_p, pid_i, pid_d, true).pending().pid == Some(
            PidUpdate { pid: true, pid_p, pid_i, pid_d },
        ),
        v.after_tune_report(iteration, pid_p, pid_i, pid_d, true).pending().target == Some(
            TargetUpdate { target_temp: 0, profile: TemperatureProfileEnum::Static },
        ),
        v.after_tune_report(iteration, pid_p, pid_i, pid_d, false).pending().pid == Some(
            PidUpdate { pid: v.pid, pid_p, pid_i, pid_d },
        ),
{
}

} // verus!
