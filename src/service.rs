//! The systemd unit that re-applies the threshold at boot and after sleep.
use vstd::prelude::*;
use vstd::string::StringExecFns;

use crate::decimal::{decimal_chars, decimal_text};
use crate::THRESHOLD_FILE;

verus! {

/// What a unit description is made of: the targets before which the
/// threshold is re-applied, the sysfs node it is written to, and its value.
pub struct ServiceView {
    pub events: Seq<Seq<char>>,
    pub threshold_path: Seq<char>,
    pub threshold: u8,
}

/// The systemd targets at which the threshold must be re-applied.
pub open spec fn default_events() -> Seq<Seq<char>> {
    seq![
        "hibernate.target"@,
        "hybrid-sleep.target"@,
        "multi-user.target"@,
        "suspend.target"@,
        "suspend-then-hibernate.target"@,
    ]
}

/// One line `key` + event for each event, in order.
pub open spec fn key_lines(key: Seq<char>, events: Seq<Seq<char>>) -> Seq<char>
    decreases events.len(),
{
    if events.len() == 0 {
        Seq::empty()
    } else {
        key_lines(key, events.drop_last()) + key + events.last() + "\n"@
    }
}

/// The text of the unit file that describes `v`.
pub open spec fn unit_file(v: ServiceView) -> Seq<char> {
    "[Unit]\nDescription=Set the battery charge threshold\n"@
        + key_lines("Before="@, v.events)
        + "\n[Service]\nType=oneshot\nExecStart=/bin/sh -c \"echo "@
        + decimal_chars(v.threshold as nat)
        + " > "@
        + v.threshold_path
        + "\"\nRemainAfterExit=yes\n\n[Install]\n"@
        + key_lines("WantedBy="@, v.events)
}

/// A boot-time unit that writes a fixed threshold into the sysfs node.
pub struct BatteryLimiterService {
    events: Vec<String>,
    battery_threshold_path: String,
    battery_threshold: u8,
}

impl View for BatteryLimiterService {
    type V = ServiceView;

    closed spec fn view(&self) -> ServiceView {
        ServiceView {
            events: self.events@.map_values(|e: String| e@),
            threshold_path: self.battery_threshold_path@,
            threshold: self.battery_threshold,
        }
    }
}

/// Appends one line `key` + event for each of `events`.
fn append_key_lines(out: &mut String, key: &str, events: &Vec<String>)
    ensures
        final(out)@ == old(out)@ + key_lines(key@, events@.map_values(|e: String| e@)),
{
    let ghost evs = events@.map_values(|e: String| e@);
    let mut i: usize = 0;
    assert(evs.take(0) =~= Seq::<Seq<char>>::empty());
    while i < events.len()
        invariant
            i <= events@.len(),
            evs == events@.map_values(|e: String| e@),
            out@ == old(out)@ + key_lines(key@, evs.take(i as int)),
        decreases events@.len() - i,
    {
        out.append(key);
        out.append(events[i].as_str());
        out.append("\n");
        assert(evs.take(i + 1).drop_last() =~= evs.take(i as int));
        assert(out@ =~= old(out)@ + key_lines(key@, evs.take(i + 1)));
        i = i + 1;
    }
    assert(evs.take(events@.len() as int) =~= evs);
}

impl Default for BatteryLimiterService {
    /// The fixed targets and sysfs node, with a threshold of zero.
    fn default() -> (r: BatteryLimiterService)
        ensures
            r@ == (ServiceView {
                events: default_events(),
                threshold_path: THRESHOLD_FILE@,
                threshold: 0,
            }),
    {
        let r = BatteryLimiterService {
            events: vec![
                String::from_str("hibernate.target"),
                String::from_str("hybrid-sleep.target"),
                String::from_str("multi-user.target"),
                String::from_str("suspend.target"),
                String::from_str("suspend-then-hibernate.target"),
            ],
            battery_threshold_path: String::from_str(THRESHOLD_FILE),
            battery_threshold: 0,
        };
        assert(r@.events =~= default_events());
        r
    }
}

impl BatteryLimiterService {
    /// The unit for the fixed targets and sysfs node and the given threshold.
    pub fn new(battery_threshold: u8) -> (r: BatteryLimiterService)
        ensures
            r@ == (ServiceView {
                events: default_events(),
                threshold_path: THRESHOLD_FILE@,
                threshold: battery_threshold,
            }),
    {
        BatteryLimiterService { battery_threshold, ..Default::default() }
    }

    /// The text of the unit file.
    pub fn render(&self) -> (r: String)
        ensures
            r@ == unit_file(self@),
    {
        let mut out = String::from_str("[Unit]\nDescription=Set the battery charge threshold\n");
        append_key_lines(&mut out, "Before=", &self.events);
        out.append("\n[Service]\nType=oneshot\nExecStart=/bin/sh -c \"echo ");
        let threshold = decimal_text(self.battery_threshold);
        out.append(threshold.as_str());
        out.append(" > ");
        out.append(self.battery_threshold_path.as_str());
        out.append("\"\nRemainAfterExit=yes\n\n[Install]\n");
        append_key_lines(&mut out, "WantedBy=", &self.events);
        out
    }
}

} // verus!
