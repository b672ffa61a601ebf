use vstd::prelude::*;
use crate::status::LeakStatus;

verus! {

/// Physical outputs of one branch: green, yellow and red lamps and a buzzer.
#[derive(PartialEq, Eq, Structural, Clone, Copy, Debug)]
pub struct Actuator {
    pub led_hijau: bool,
    pub led_kuning: bool,
    pub led_merah: bool,
    pub buzzer: bool,
}

/// The outputs that show a status: green alone when safe, yellow alone on
/// a warning, red together with the buzzer in danger.
pub open spec fn display_of(s: LeakStatus) -> Actuator {
    match s {
        LeakStatus::Aman => Actuator { led_hijau: true, led_kuning: false, led_merah: false, buzzer: false },
        LeakStatus::Waspada => Actuator { led_hijau: false, led_kuning: true, led_merah: false, buzzer: false },
        LeakStatus::Bahaya => Actuator { led_hijau: false, led_kuning: false, led_merah: true, buzzer: true },
    }
}

/// Style of the dashboard's lamp row: colour and glow of each lamp, and the
/// buzzer's colour, glow and animation class.
#[derive(Clone, Copy, Debug)]
pub struct LampStyles {
    pub green: &'static str,
    pub green_glow: &'static str,
    pub yellow: &'static str,
    pub yellow_glow: &'static str,
    pub red: &'static str,
    pub red_glow: &'static str,
    pub buzzer: &'static str,
    pub buzzer_glow: &'static str,
    pub buzzer_class: &'static str,
}

impl Actuator {
    /// Exactly one lamp is lit, and the buzzer sounds exactly with the red lamp.
    pub open spec fn well_formed(self) -> bool {
        &&& (if self.led_hijau { 1int } else { 0 }) + (if self.led_kuning { 1int } else { 0 })
            + (if self.led_merah { 1int } else { 0 }) == 1
        &&& self.buzzer == self.led_merah
    }

    /// Outputs at power-on: the safe display.
    pub fn new() -> (r: Actuator)
        ensures
            r == display_of(LeakStatus::Aman),
            r.led_hijau && !r.led_kuning && !r.led_merah && !r.buzzer,
    {
        Actuator { led_hijau: true, led_kuning: false, led_merah: false, buzzer: false }
    }

    /// Sets the outputs to show `status`.
    pub fn update(&mut self, status: &LeakStatus)
        ensures
            *final(self) == display_of(*status),
            final(self).led_hijau == (*status == LeakStatus::Aman),
            final(self).led_kuning == (*status == LeakStatus::Waspada),
            final(self).led_merah == (*status == LeakStatus::Bahaya),
            final(self).buzzer == (*status == LeakStatus::Bahaya),
    {
        match status {
            LeakStatus::Aman => {
                self.led_hijau = true;
                self.led_kuning = false;
                self.led_merah = false;
                self.buzzer = false;
            },
            LeakStatus::Waspada => {
                self.led_hijau = false;
                self.led_kuning = true;
                self.led_merah = false;
                self.buzzer = false;
            },
            LeakStatus::Bahaya => {
                self.led_hijau = false;
                self.led_kuning = false;
                self.led_merah = true;
                self.buzzer = true;
            },
        }
    }

    /// Dashboard style of the outputs: a lit lamp shows its colour with a
    /// glow, an unlit one is grey without glow; a sounding buzzer is red,
    /// glows and blinks.
    pub fn lamp_styles(&self) -> (r: LampStyles)
        ensures
            r.green@ == (if self.led_hijau { "#16a34a"@ } else { "#d1d5db"@ }),
            r.green_glow@ == (if self.led_hijau { "0 0 8px #16a34a88"@ } else { "none"@ }),
            r.yellow@ == (if self.led_kuning { "#d97706"@ } else { "#d1d5db"@ }),
            r.yellow_glow@ == (if self.led_kuning { "0 0 8px #d9770688"@ } else { "none"@ }),
            r.red@ == (if self.led_merah { "#dc2626"@ } else { "#d1d5db"@ }),
            r.red_glow@ == (if self.led_merah { "0 0 8px #dc262688"@ } else { "none"@ }),
            r.buzzer@ == (if self.buzzer { "#dc2626"@ } else { "#e5e7eb"@ }),
            r.buzzer_glow@ == (if self.buzzer { "0 0 8px #dc262688"@ } else { "none"@ }),
            r.buzzer_class@ == (if self.buzzer { "buz-anim"@ } else { ""@ }),
    {
        let (green, green_glow) = if self.led_hijau {
            ("#16a34a", "0 0 8px #16a34a88")
        } else {
            ("#d1d5db", "none")
        };
        let (yellow, yellow_glow) = if self.led_kuning {
            ("#d97706", "0 0 8px #d9770688")
        } else {
            ("#d1d5db", "none")
        };
        let (red, red_glow) = if self.led_merah {
            ("#dc2626", "0 0 8px #dc262688")
        } else {
            ("#d1d5db", "none")
        };
        let (buzzer, buzzer_glow, buzzer_class) = if self.buzzer {
            ("#dc2626", "0 0 8px #dc262688", "buz-anim")
        } else {
            ("#e5e7eb", "none", "")
        };
        LampStyles {
            green,
            green_glow,
            yellow,
            yellow_glow,
            red,
            red_glow,
            buzzer,
            buzzer_glow,
            buzzer_class,
        }
    }
}

/// Every status is shown with exactly one lamp lit and the buzzer sounding
/// exactly with the red lamp.
pub proof fn display_well_formed(s: LeakStatus)
    ensures
        display_of(s).well_formed(),
{
}

/// The outputs tell the status apart: different statuses are shown differently.
pub proof fn display_identifies_status(a: LeakStatus, b: LeakStatus)
    requires
        display_of(a) == display_of(b),
    ensures
        a == b,
{
}

/// Each lamp belongs to one status: green is lit exactly when safe, yellow
/// exactly on a warning, red exactly in danger.
pub proof fn lamp_matches_status(s: LeakStatus)
    ensures
        display_of(s).led_hijau <==> s == LeakStatus::Aman,
        display_of(s).led_kuning <==> s == LeakStatus::Waspada,
        display_of(s).led_merah <==> s == LeakStatus::Bahaya,
{
}

/// Only danger sounds the buzzer.
pub proof fn buzzer_only_in_danger(s: LeakStatus)
    ensures
        display_of(s).buzzer <==> s == LeakStatus::Bahaya,
{
}

} // verus!
