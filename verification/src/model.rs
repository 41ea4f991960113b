//! The data model: configuration and build orders, with the defaults that
//! older on-disk files fall back to, and the mathematical views the
//! contracts are stated over.
use vstd::prelude::*;

use crate::json::Number;

verus! {

/// Upper bound on the number of steps of a build order or branch.
pub const MAX_BUILD_ORDER_STEPS: usize = 200;

/// View of an optional owned string.
pub open spec fn opt_str_view(o: Option<String>) -> Option<Seq<char>> {
    match o {
        Some(s) => Some(s@),
        None => None,
    }
}

// ---------------------------------------------------------------------------
// Configuration
// ---------------------------------------------------------------------------
#[derive(Debug, Clone, PartialEq)]
pub struct HotkeyConfig {
    pub toggle_overlay: String,
    pub previous_step: String,
    pub next_step: String,
    pub cycle_build_order: String,
    pub toggle_click_through: String,
    pub toggle_compact: String,
    pub reset_build_order: String,
    pub toggle_pause: String,
    pub activate_branch_main: String,
    pub activate_branch_1: String,
    pub activate_branch_2: String,
    pub activate_branch_3: String,
    pub activate_branch_4: String,
    pub toggle_counters: String,
}

/// View of a hotkey configuration: each binding as a character sequence.
pub struct HotkeyConfigV {
    pub toggle_overlay: Seq<char>,
    pub previous_step: Seq<char>,
    pub next_step: Seq<char>,
    pub cycle_build_order: Seq<char>,
    pub toggle_click_through: Seq<char>,
    pub toggle_compact: Seq<char>,
    pub reset_build_order: Seq<char>,
    pub toggle_pause: Seq<char>,
    pub activate_branch_main: Seq<char>,
    pub activate_branch_1: Seq<char>,
    pub activate_branch_2: Seq<char>,
    pub activate_branch_3: Seq<char>,
    pub activate_branch_4: Seq<char>,
    pub toggle_counters: Seq<char>,
}

impl View for HotkeyConfig {
    type V = HotkeyConfigV;

    open spec fn view(&self) -> HotkeyConfigV {
        HotkeyConfigV {
            toggle_overlay: self.toggle_overlay@,
            previous_step: self.previous_step@,
            next_step: self.next_step@,
            cycle_build_order: self.cycle_build_order@,
            toggle_click_through: self.toggle_click_through@,
            toggle_compact: self.toggle_compact@,
            reset_build_order: self.reset_build_order@,
            toggle_pause: self.toggle_pause@,
            activate_branch_main: self.activate_branch_main@,
            activate_branch_1: self.activate_branch_1@,
            activate_branch_2: self.activate_branch_2@,
            activate_branch_3: self.activate_branch_3@,
            activate_branch_4: self.activate_branch_4@,
            toggle_counters: self.toggle_counters@,
        }
    }
}

#[derive(Debug, Clone, Copy, PartialEq, Eq, Structural)]
pub struct WindowPosition {
    pub x: i32,
    pub y: i32,
}

#[derive(Debug, Clone, Copy, PartialEq, Eq, Structural)]
pub struct WindowSize {
    pub width: u32,
    pub height: u32,
}

#[derive(Debug, Clone, Copy, PartialEq, Eq, Structural)]
pub struct AutoAdvanceConfig {
    pub enabled: bool,
    pub delay_seconds: u32,
}

#[derive(Debug, Clone, Copy, PartialEq, Eq, Structural)]
pub struct VoiceConfig {
    pub enabled: bool,
    pub rate: Number,
    pub speak_steps: bool,
    pub speak_reminders: bool,
    pub speak_delta: bool,
}

#[derive(Debug, Clone, Copy, PartialEq, Eq, Structural)]
pub struct ReminderItemConfig {
    pub enabled: bool,
    pub interval_seconds: u32,
}

#[derive(Debug, Clone, Copy, PartialEq, Eq, Structural)]
pub struct SacredSitesConfig {
    pub enabled: bool,
}

#[derive(Debug, Clone, Copy, PartialEq, Eq, Structural)]
pub struct MatchupAlertsConfig {
    pub enabled: bool,
}

#[derive(Debug, Clone, Copy, PartialEq, Eq, Structural)]
pub struct ReminderConfig {
    pub enabled: bool,
    pub villager_queue: ReminderItemConfig,
    pub scout: ReminderItemConfig,
    pub houses: ReminderItemConfig,
    pub military: ReminderItemConfig,
    pub map_control: ReminderItemConfig,
    pub macro_check: ReminderItemConfig,
    pub sacred_sites: SacredSitesConfig,
    pub matchup_alerts: MatchupAlertsConfig,
}

#[derive(Debug, Clone, PartialEq)]
pub struct UpgradeBadgeConfig {
    pub id: String,
    pub name: String,
    pub short_name: String,
    pub trigger_seconds: u32,
    pub enabled: bool,
}

/// View of an upgrade badge.
pub struct UpgradeBadgeConfigV {
    pub id: Seq<char>,
    pub name: Seq<char>,
    pub short_name: Seq<char>,
    pub trigger_seconds: u32,
    pub enabled: bool,
}

impl View for UpgradeBadgeConfig {
    type V = UpgradeBadgeConfigV;

    open spec fn view(&self) -> UpgradeBadgeConfigV {
        UpgradeBadgeConfigV {
            id: self.id@,
            name: self.name@,
            short_name: self.short_name@,
            trigger_seconds: self.trigger_seconds,
            enabled: self.enabled,
        }
    }
}

#[derive(Debug, Clone, PartialEq)]
pub struct UpgradeBadgesConfig {
    pub enabled: bool,
    pub badges: Vec<UpgradeBadgeConfig>,
}

/// View of the badge collection.
pub struct UpgradeBadgesConfigV {
    pub enabled: bool,
    pub badges: Seq<UpgradeBadgeConfigV>,
}

impl View for UpgradeBadgesConfig {
    type V = UpgradeBadgesConfigV;

    open spec fn view(&self) -> UpgradeBadgesConfigV {
        UpgradeBadgesConfigV {
            enabled: self.enabled,
            badges: self.badges@.map_values(|b: UpgradeBadgeConfig| b@),
        }
    }
}

#[derive(Debug, Clone, Copy, PartialEq, Eq, Structural)]
pub struct TimerDriftConfig {
    pub enabled: bool,
}

#[derive(Debug, Clone, Copy, PartialEq, Eq, Structural)]
pub struct TelemetryConfig {
    pub enabled: bool,
    pub capture_hotkeys: bool,
    pub capture_actions: bool,
    pub max_events: u32,
}

#[derive(Debug, Clone, PartialEq)]
pub struct AppConfig {
    pub overlay_opacity: Number,
    pub ui_scale: Number,
    pub font_size: String,
    pub theme: String,
    pub overlay_preset: String,
    pub hotkeys: HotkeyConfig,
    pub window_position: Option<WindowPosition>,
    pub window_size: Option<WindowSize>,
    pub click_through: bool,
    pub compact_mode: bool,
    pub coach_only_mode: bool,
    pub auto_advance: AutoAdvanceConfig,
    pub filter_civilization: Option<String>,
    pub filter_difficulty: Option<String>,
    pub overlay_position: String,
    pub floating_style: bool,
    pub voice: Option<VoiceConfig>,
    pub reminders: Option<ReminderConfig>,
    pub upgrade_badges: Option<UpgradeBadgesConfig>,
    pub timer_drift: Option<TimerDriftConfig>,
    pub telemetry: Option<TelemetryConfig>,
}

/// View of a full configuration.
pub struct AppConfigV {
    pub overlay_opacity: Number,
    pub ui_scale: Number,
    pub font_size: Seq<char>,
    pub theme: Seq<char>,
    pub overlay_preset: Seq<char>,
    pub hotkeys: HotkeyConfigV,
    pub window_position: Option<WindowPosition>,
    pub window_size: Option<WindowSize>,
    pub click_through: bool,
    pub compact_mode: bool,
    pub coach_only_mode: bool,
    pub auto_advance: AutoAdvanceConfig,
    pub filter_civilization: Option<Seq<char>>,
    pub filter_difficulty: Option<Seq<char>>,
    pub overlay_position: Seq<char>,
    pub floating_style: bool,
    pub voice: Option<VoiceConfig>,
    pub reminders: Option<ReminderConfig>,
    pub upgrade_badges: Option<UpgradeBadgesConfigV>,
    pub timer_drift: Option<TimerDriftConfig>,
    pub telemetry: Option<TelemetryConfig>,
}

impl View for AppConfig {
    type V = AppConfigV;

    open spec fn view(&self) -> AppConfigV {
        AppConfigV {
            overlay_opacity: self.overlay_opacity,
            ui_scale: self.ui_scale,
            font_size: self.font_size@,
            theme: self.theme@,
            overlay_preset: self.overlay_preset@,
            hotkeys: self.hotkeys@,
            window_position: self.window_position,
            window_size: self.window_size,
            click_through: self.click_through,
            compact_mode: self.compact_mode,
            coach_only_mode: self.coach_only_mode,
            auto_advance: self.auto_advance,
            filter_civilization: opt_str_view(self.filter_civilization),
            filter_difficulty: opt_str_view(self.filter_difficulty),
            overlay_position: self.overlay_position@,
            floating_style: self.floating_style,
            voice: self.voice,
            reminders: self.reminders,
            upgrade_badges: match self.upgrade_badges {
                Some(b) => Some(b@),
                None => None,
            },
            timer_drift: self.timer_drift,
            telemetry: self.telemetry,
        }
    }
}

impl AppConfigV {
    /// The decimal fields are in serializable range.
    pub open spec fn wf(self) -> bool {
        self.overlay_opacity.wf() && self.ui_scale.wf() && (match self.voice {
            Some(v) => v.rate.wf(),
            None => true,
        })
    }
}

/// Whether a configuration's decimal fields are in serializable range:
/// the executable test for `serialize_app_config`'s precondition, for
/// callers handed a configuration from outside.
pub fn config_wf(c: &AppConfig) -> (r: bool)
    ensures
        r == c@.wf(),
{
    c.overlay_opacity.is_wf() && c.ui_scale.is_wf() && (match &c.voice {
        Some(v) => v.rate.is_wf(),
        None => true,
    })
}

// ---------------------------------------------------------------------------
// Build orders
// ---------------------------------------------------------------------------
#[derive(Debug, Clone, Copy, PartialEq)]
pub struct Resources {
    pub food: Option<i32>,
    pub wood: Option<i32>,
    pub gold: Option<i32>,
    pub stone: Option<i32>,
}

#[derive(Debug, Clone, PartialEq)]
pub struct BuildOrderStep {
    pub id: String,
    pub description: String,
    pub timing: Option<String>,
    pub resources: Option<Resources>,
}

/// View of a build-order step.
pub struct BuildOrderStepV {
    pub id: Seq<char>,
    pub description: Seq<char>,
    pub timing: Option<Seq<char>>,
    pub resources: Option<Resources>,
}

impl View for BuildOrderStep {
    type V = BuildOrderStepV;

    open spec fn view(&self) -> BuildOrderStepV {
        BuildOrderStepV {
            id: self.id@,
            description: self.description@,
            timing: opt_str_view(self.timing),
            resources: self.resources,
        }
    }
}

#[derive(Debug, Clone, PartialEq)]
pub struct BuildOrderBranch {
    pub id: String,
    pub name: String,
    pub trigger: Option<String>,
    pub start_step_index: u32,
    pub steps: Vec<BuildOrderStep>,
}

/// View of a branch.
pub struct BuildOrderBranchV {
    pub id: Seq<char>,
    pub name: Seq<char>,
    pub trigger: Option<Seq<char>>,
    pub start_step_index: u32,
    pub steps: Seq<BuildOrderStepV>,
}

impl View for BuildOrderBranch {
    type V = BuildOrderBranchV;

    open spec fn view(&self) -> BuildOrderBranchV {
        BuildOrderBranchV {
            id: self.id@,
            name: self.name@,
            trigger: opt_str_view(self.trigger),
            start_step_index: self.start_step_index,
            steps: self.steps@.map_values(|s: BuildOrderStep| s@),
        }
    }
}

#[derive(Debug, Clone, PartialEq)]
pub struct BuildOrder {
    pub id: String,
    pub name: String,
    pub civilization: String,
    pub description: String,
    pub difficulty: String,
    pub steps: Vec<BuildOrderStep>,
    pub enabled: bool,
    pub pinned: bool,
    pub favorite: bool,
    pub branches: Option<Vec<BuildOrderBranch>>,
}

/// View of a build order.
pub struct BuildOrderV {
    pub id: Seq<char>,
    pub name: Seq<char>,
    pub civilization: Seq<char>,
    pub description: Seq<char>,
    pub difficulty: Seq<char>,
    pub steps: Seq<BuildOrderStepV>,
    pub enabled: bool,
    pub pinned: bool,
    pub favorite: bool,
    pub branches: Option<Seq<BuildOrderBranchV>>,
}

impl View for BuildOrder {
    type V = BuildOrderV;

    open spec fn view(&self) -> BuildOrderV {
        BuildOrderV {
            id: self.id@,
            name: self.name@,
            civilization: self.civilization@,
            description: self.description@,
            difficulty: self.difficulty@,
            steps: self.steps@.map_values(|s: BuildOrderStep| s@),
            enabled: self.enabled,
            pinned: self.pinned,
            favorite: self.favorite,
            branches: match self.branches {
                Some(bs) => Some(bs@.map_values(|b: BuildOrderBranch| b@)),
                None => None,
            },
        }
    }
}

// ---------------------------------------------------------------------------
// Defaults
// ---------------------------------------------------------------------------
/// Default binding for pausing the timer.
pub fn default_toggle_pause() -> (r: String)
    ensures
        r@ == "F8"@,
{
    "F8".to_owned()
}

/// Default interface scale factor (1.0).
pub fn default_ui_scale() -> (r: Number)
    ensures
        r == (Number { mantissa: 10, scale: 1 }),
{
    Number { mantissa: 10, scale: 1 }
}

/// Default overlay layout preset.
pub fn default_overlay_preset() -> (r: String)
    ensures
        r@ == "info_dense"@,
{
    "info_dense".to_owned()
}

/// Default reminder settings for the periodic macro check.
pub fn default_macro_check() -> (r: ReminderItemConfig)
    ensures
        r == (ReminderItemConfig { enabled: false, interval_seconds: 20 }),
{
    ReminderItemConfig { enabled: false, interval_seconds: 20 }
}

/// Default sacred-site reminder settings.
pub fn default_sacred_sites() -> (r: SacredSitesConfig)
    ensures
        r == (SacredSitesConfig { enabled: true }),
{
    SacredSitesConfig { enabled: true }
}

/// Default matchup-alert settings.
pub fn default_matchup_alerts() -> (r: MatchupAlertsConfig)
    ensures
        r == (MatchupAlertsConfig { enabled: true }),
{
    MatchupAlertsConfig { enabled: true }
}

/// Default step index a branch starts from.
pub fn default_branch_start() -> (r: u32)
    ensures
        r == 0,
{
    0
}

/// Default binding for returning to the main branch.
pub fn default_branch_main() -> (r: String)
    ensures
        r@ == "Alt+0"@,
{
    "Alt+0".to_owned()
}

/// Default binding for activating the first branch.
pub fn default_branch_1() -> (r: String)
    ensures
        r@ == "Alt+1"@,
{
    "Alt+1".to_owned()
}

/// Default binding for activating the second branch.
pub fn default_branch_2() -> (r: String)
    ensures
        r@ == "Alt+2"@,
{
    "Alt+2".to_owned()
}

/// Default binding for activating the third branch.
pub fn default_branch_3() -> (r: String)
    ensures
        r@ == "Alt+3"@,
{
    "Alt+3".to_owned()
}

/// Default binding for activating the fourth branch.
pub fn default_branch_4() -> (r: String)
    ensures
        r@ == "Alt+4"@,
{
    "Alt+4".to_owned()
}

/// Default binding for showing counter units.
pub fn default_toggle_counters() -> (r: String)
    ensures
        r@ == "TAB"@,
{
    "TAB".to_owned()
}

/// The hotkey bindings a fresh configuration starts with.
pub open spec fn spec_default_hotkeys(h: HotkeyConfigV) -> bool {
    h.toggle_overlay == "F1"@ && h.previous_step == "F2"@ && h.next_step == "F3"@
        && h.cycle_build_order == "F4"@ && h.toggle_click_through == "F5"@ && h.toggle_compact
        == "F6"@ && h.reset_build_order == "F7"@ && h.toggle_pause == "F8"@
        && h.activate_branch_main == "Alt+0"@ && h.activate_branch_1 == "Alt+1"@
        && h.activate_branch_2 == "Alt+2"@ && h.activate_branch_3 == "Alt+3"@
        && h.activate_branch_4 == "Alt+4"@ && h.toggle_counters == "TAB"@
}

impl Default for HotkeyConfig {
    /// The bindings F1..F8, Alt+0..Alt+4 and TAB described above.
    fn default() -> (r: HotkeyConfig)
        ensures
            spec_default_hotkeys(r@),
    {
        HotkeyConfig {
            toggle_overlay: "F1".to_owned(),
            previous_step: "F2".to_owned(),
            next_step: "F3".to_owned(),
            cycle_build_order: "F4".to_owned(),
            toggle_click_through: "F5".to_owned(),
            toggle_compact: "F6".to_owned(),
            reset_build_order: "F7".to_owned(),
            toggle_pause: "F8".to_owned(),
            activate_branch_main: "Alt+0".to_owned(),
            activate_branch_1: "Alt+1".to_owned(),
            activate_branch_2: "Alt+2".to_owned(),
            activate_branch_3: "Alt+3".to_owned(),
            activate_branch_4: "Alt+4".to_owned(),
            toggle_counters: "TAB".to_owned(),
        }
    }
}

impl Default for VoiceConfig {
    /// Voice feedback on at normal rate, speaking everything.
    fn default() -> (r: VoiceConfig)
        ensures
            r == (VoiceConfig {
                enabled: true,
                rate: Number { mantissa: 10, scale: 1 },
                speak_steps: true,
                speak_reminders: true,
                speak_delta: true,
            }),
    {
        VoiceConfig {
            enabled: true,
            rate: Number { mantissa: 10, scale: 1 },
            speak_steps: true,
            speak_reminders: true,
            speak_delta: true,
        }
    }
}

/// The reminder settings a fresh configuration starts with.
pub open spec fn spec_default_reminders() -> ReminderConfig {
    ReminderConfig {
        enabled: false,
        villager_queue: ReminderItemConfig { enabled: true, interval_seconds: 25 },
        scout: ReminderItemConfig { enabled: true, interval_seconds: 45 },
        houses: ReminderItemConfig { enabled: true, interval_seconds: 40 },
        military: ReminderItemConfig { enabled: true, interval_seconds: 60 },
        map_control: ReminderItemConfig { enabled: true, interval_seconds: 90 },
        macro_check: ReminderItemConfig { enabled: false, interval_seconds: 20 },
        sacred_sites: SacredSitesConfig { enabled: true },
        matchup_alerts: MatchupAlertsConfig { enabled: true },
    }
}

impl Default for ReminderConfig {
    /// Reminders off as a whole, each item keeping its usual interval.
    fn default() -> (r: ReminderConfig)
        ensures
            r == spec_default_reminders(),
    {
        ReminderConfig {
            enabled: false,
            villager_queue: ReminderItemConfig { enabled: true, interval_seconds: 25 },
            scout: ReminderItemConfig { enabled: true, interval_seconds: 45 },
            houses: ReminderItemConfig { enabled: true, interval_seconds: 40 },
            military: ReminderItemConfig { enabled: true, interval_seconds: 60 },
            map_control: ReminderItemConfig { enabled: true, interval_seconds: 90 },
            macro_check: ReminderItemConfig { enabled: false, interval_seconds: 20 },
            sacred_sites: SacredSitesConfig { enabled: true },
            matchup_alerts: MatchupAlertsConfig { enabled: true },
        }
    }
}

impl Default for UpgradeBadgesConfig {
    /// Badges enabled with none defined.
    fn default() -> (r: UpgradeBadgesConfig)
        ensures
            r@.enabled,
            r@.badges.len() == 0,
    {
        UpgradeBadgesConfig { enabled: true, badges: Vec::new() }
    }
}

/// What a default configuration looks like, field by field.
pub open spec fn spec_default_app_config(c: AppConfigV) -> bool {
    c.overlay_opacity == (Number { mantissa: 8, scale: 1 }) && c.ui_scale == (Number {
        mantissa: 10,
        scale: 1,
    }) && c.font_size == "medium"@ && c.theme == "dark"@ && c.overlay_preset == "info_dense"@
        && spec_default_hotkeys(c.hotkeys) && c.window_position is None && c.window_size is None
        && c.click_through && !c.compact_mode && !c.coach_only_mode && c.auto_advance == (
    AutoAdvanceConfig { enabled: false, delay_seconds: 0 }) && c.filter_civilization is None
        && c.filter_difficulty is None && c.overlay_position == "top-right"@ && c.floating_style
        && c.voice == Some(
        VoiceConfig {
            enabled: true,
            rate: Number { mantissa: 10, scale: 1 },
            speak_steps: true,
            speak_reminders: true,
            speak_delta: true,
        },
    ) && c.reminders == Some(spec_default_reminders()) && (match c.upgrade_badges {
        Some(b) => b.enabled && b.badges.len() == 0,
        None => false,
    }) && c.timer_drift == Some(TimerDriftConfig { enabled: true }) && c.telemetry == Some(
        TelemetryConfig {
            enabled: false,
            capture_hotkeys: true,
            capture_actions: true,
            max_events: 200,
        },
    )
}

impl Default for AppConfig {
    /// The configuration used when no file exists or the file fails to parse.
    fn default() -> (r: AppConfig)
        ensures
            spec_default_app_config(r@),
            r@.wf(),
    {
        AppConfig {
            overlay_opacity: Number { mantissa: 8, scale: 1 },
            ui_scale: default_ui_scale(),
            font_size: "medium".to_owned(),
            theme: "dark".to_owned(),
            overlay_preset: default_overlay_preset(),
            hotkeys: HotkeyConfig::default(),
            window_position: None,
            window_size: None,
            click_through: true,
            compact_mode: false,
            coach_only_mode: false,
            auto_advance: AutoAdvanceConfig { enabled: false, delay_seconds: 0 },
            filter_civilization: None,
            filter_difficulty: None,
            overlay_position: "top-right".to_owned(),
            floating_style: true,
            voice: Some(VoiceConfig::default()),
            reminders: Some(ReminderConfig::default()),
            upgrade_badges: Some(UpgradeBadgesConfig::default()),
            timer_drift: Some(TimerDriftConfig { enabled: true }),
            telemetry: Some(
                TelemetryConfig {
                    enabled: false,
                    capture_hotkeys: true,
                    capture_actions: true,
                    max_events: 200,
                },
            ),
        }
    }
}

} // verus!
