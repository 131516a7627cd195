//! Alerts: the memory alert, the list of alerts with their resolution, and
//! the counts of active alerts by severity.
use crate::text::{append_decimal, append_str, decimal, str_equal, u64_to_decimal};
use vstd::prelude::*;

verus! {

/// Alert types.
#[derive(Debug, Clone, Copy, PartialEq, Eq, Structural)]
pub enum AlertType {
    HighResponseTime,
    LowSuccessRate,
    HighMemoryUsage,
    HighErrorRate,
    HighRequestRate,
    SystemOverload,
}

/// Alert severity levels.
#[derive(Debug, Clone, Copy, PartialEq, Eq, Structural)]
pub enum AlertSeverity {
    Low,
    Medium,
    High,
    Critical,
}

/// Alert information.
pub struct Alert {
    pub id: String,
    pub alert_type: AlertType,
    pub message: String,
    pub severity: AlertSeverity,
    pub timestamp: std::time::Instant,
    pub resolved: bool,
    pub metadata: Vec<(String, String)>,
}

/// What an alert says, with its texts as sequences of characters.
pub struct AlertView {
    pub id: Seq<char>,
    pub alert_type: AlertType,
    pub message: Seq<char>,
    pub severity: AlertSeverity,
    pub timestamp: std::time::Instant,
    pub resolved: bool,
    pub metadata: Seq<(Seq<char>, Seq<char>)>,
}

/// The texts of a list of name and value pairs.
pub open spec fn pair_views(v: Seq<(String, String)>) -> Seq<(Seq<char>, Seq<char>)> {
    Seq::new(v.len(), |i: int| (v[i].0@, v[i].1@))
}

impl View for Alert {
    type V = AlertView;

    open spec fn view(&self) -> AlertView {
        AlertView {
            id: self.id@,
            alert_type: self.alert_type,
            message: self.message@,
            severity: self.severity,
            timestamp: self.timestamp,
            resolved: self.resolved,
            metadata: pair_views(self.metadata@),
        }
    }
}

/// The views of a list of alerts.
pub open spec fn alert_views(v: Seq<Alert>) -> Seq<AlertView> {
    Seq::new(v.len(), |i: int| v[i]@)
}

/// A copy of an alert.
pub fn copy_alert(a: &Alert) -> (r: Alert)
    ensures
        r@ == a@,
{
    let mut metadata: Vec<(String, String)> = Vec::new();
    let n = a.metadata.len();
    let mut i: usize = 0;
    while i < n
        invariant
            n == a.metadata@.len(),
            i <= n,
            pair_views(metadata@) == pair_views(a.metadata@).subrange(0, i as int),
        decreases n - i,
    {
        let name = a.metadata[i].0.clone();
        let value = a.metadata[i].1.clone();
        assert(name@ == a.metadata@[i as int].0@ && value@ == a.metadata@[i as int].1@);
        let ghost prev = metadata@;
        metadata.push((name, value));
        assert(metadata@ == prev.push((name, value)));
        assert(pair_views(metadata@) =~= pair_views(prev).push((name@, value@)));
        assert(pair_views(metadata@) =~= pair_views(a.metadata@).subrange(0, i + 1));
        i = i + 1;
    }
    assert(pair_views(a.metadata@).subrange(0, n as int) =~= pair_views(a.metadata@));
    Alert {
        id: a.id.clone(),
        alert_type: a.alert_type,
        message: a.message.clone(),
        severity: a.severity,
        timestamp: a.timestamp,
        resolved: a.resolved,
        metadata,
    }
}

/// The alert is active and, when a severity is given, of that severity.
pub open spec fn selects(a: AlertView, severity: Option<AlertSeverity>) -> bool {
    !a.resolved && match severity {
        Some(s) => a.severity == s,
        None => true,
    }
}

/// The active alerts of `s` (of the given severity, when one is given), in
/// their order.
pub open spec fn alerts_selected(s: Seq<AlertView>, severity: Option<AlertSeverity>) -> Seq<AlertView>
    decreases s.len(),
{
    if s.len() == 0 {
        Seq::empty()
    } else if selects(s.last(), severity) {
        alerts_selected(s.drop_last(), severity).push(s.last())
    } else {
        alerts_selected(s.drop_last(), severity)
    }
}

/// Alert statistics.
#[derive(Debug, Clone, Copy, PartialEq, Eq, Structural)]
pub struct AlertStats {
    pub total_alerts: usize,
    pub active_alerts: usize,
    pub critical_alerts: usize,
    pub high_alerts: usize,
    pub medium_alerts: usize,
    pub low_alerts: usize,
}

/// The statistics of a list of alerts: how many there are, how many are
/// active, and how many active ones there are of each severity.
pub open spec fn stats_of(s: Seq<AlertView>) -> AlertStats {
    AlertStats {
        total_alerts: s.len() as usize,
        active_alerts: alerts_selected(s, None).len() as usize,
        critical_alerts: alerts_selected(s, Some(AlertSeverity::Critical)).len() as usize,
        high_alerts: alerts_selected(s, Some(AlertSeverity::High)).len() as usize,
        medium_alerts: alerts_selected(s, Some(AlertSeverity::Medium)).len() as usize,
        low_alerts: alerts_selected(s, Some(AlertSeverity::Low)).len() as usize,
    }
}

proof fn lemma_alerts_selected_len(s: Seq<AlertView>, severity: Option<AlertSeverity>)
    ensures
        alerts_selected(s, severity).len() <= s.len(),
    decreases s.len(),
{
    if s.len() > 0 {
        lemma_alerts_selected_len(s.drop_last(), severity);
    }
}

/// The first alert with the given id, if any.
pub open spec fn first_alert_with_id(s: Seq<AlertView>, id: Seq<char>) -> Option<int> {
    if exists|i: int| 0 <= i < s.len() && s[i].id == id {
        Some(choose|i: int| 0 <= i < s.len() && s[i].id == id && forall|j: int| 0 <= j < i ==> s[j].id != id)
    } else {
        None
    }
}

proof fn lemma_first_alert(s: Seq<AlertView>, id: Seq<char>, k: int)
    requires
        0 <= k < s.len(),
        s[k].id == id,
        forall|j: int| 0 <= j < k ==> s[j].id != id,
    ensures
        first_alert_with_id(s, id) == Some(k),
{
    let c = choose|c: int| 0 <= c < s.len() && s[c].id == id && forall|j: int| 0 <= j < c ==> s[j].id != id;
    if c < k {
    } else if c > k {
    }
}

proof fn lemma_views_update(v: Seq<Alert>, k: int, a: Alert)
    requires
        0 <= k < v.len(),
    ensures
        alert_views(v.update(k, a)) == alert_views(v).update(k, a@),
{
    assert(alert_views(v.update(k, a)) =~= alert_views(v).update(k, a@));
}

/// The alerts raised so far.
pub struct AlertLog {
    alerts: Vec<Alert>,
}

impl View for AlertLog {
    type V = Seq<AlertView>;

    /// The alerts, in the order they were raised.
    closed spec fn view(&self) -> Seq<AlertView> {
        alert_views(self.alerts@)
    }
}

impl AlertLog {
    /// No alerts.
    pub fn new() -> (r: Self)
        ensures
            r@ == Seq::<AlertView>::empty(),
    {
        let r = AlertLog { alerts: Vec::new() };
        assert(r@ =~= Seq::<AlertView>::empty());
        r
    }

    /// The alerts, in the order they were raised.
    pub fn alerts(&self) -> (r: &Vec<Alert>)
        ensures
            alert_views(r@) == self@,
    {
        &self.alerts
    }

    /// Adds an alert.
    pub fn push(&mut self, alert: Alert)
        ensures
            final(self)@ == old(self)@.push(alert@),
    {
        self.alerts.push(alert);
        assert(self@ =~= old(self)@.push(alert@));
    }

    /// Copies of the alerts that meet `p`.
    fn copies_selected(&self, severity: Option<AlertSeverity>) -> (r: Vec<Alert>)
        ensures
            alert_views(r@) == alerts_selected(self@, severity),
    {
        let mut out: Vec<Alert> = Vec::new();
        let n = self.alerts.len();
        let mut i: usize = 0;
        while i < n
            invariant
                n == self.alerts@.len(),
                i <= n,
                alert_views(out@) == alerts_selected(self@.subrange(0, i as int), severity),
            decreases n - i,
        {
            let a = &self.alerts[i];
            assert(self@.subrange(0, i + 1).drop_last() =~= self@.subrange(0, i as int));
            assert(self@.subrange(0, i + 1).last() == a@);
            let keep = !a.resolved && match severity {
                Some(s) => a.severity == s,
                None => true,
            };
            assert(keep == selects(a@, severity));
            if keep {
                out.push(copy_alert(a));
                assert(alert_views(out@) =~= alerts_selected(self@.subrange(0, i as int), severity).push(a@));
            }
            i = i + 1;
        }
        assert(self@.subrange(0, n as int) =~= self@);
        out
    }

    /// Get all active alerts.
    pub fn get_active_alerts(&self) -> (r: Vec<Alert>)
        ensures
            alert_views(r@) == alerts_selected(self@, None),
    {
        self.copies_selected(None)
    }

    /// Get the active alerts of a severity.
    pub fn get_alerts_by_severity(&self, severity: AlertSeverity) -> (r: Vec<Alert>)
        ensures
            alert_views(r@) == alerts_selected(self@, Some(severity)),
    {
        self.copies_selected(Some(severity))
    }

    /// Resolve the first alert with the given id; `false` when there is none.
    pub fn resolve_alert(&mut self, alert_id: &str) -> (r: bool)
        ensures
            r == first_alert_with_id(old(self)@, alert_id@) is Some,
            first_alert_with_id(old(self)@, alert_id@) is None ==> final(self)@ == old(self)@,
            first_alert_with_id(old(self)@, alert_id@) matches Some(i) ==> final(self)@
                == old(self)@.update(i, AlertView { resolved: true, ..old(self)@[i] }),
    {
        let n = self.alerts.len();
        let mut i: usize = 0;
        while i < n
            invariant
                n == self.alerts@.len(),
                self.alerts@ == old(self).alerts@,
                i <= n,
                forall|j: int| 0 <= j < i ==> self.alerts@[j].id@ != alert_id@,
            decreases n - i,
        {
            if str_equal(self.alerts[i].id.as_str(), alert_id) {
                let ghost k = i as int;
                proof {
                    assert forall|j: int| 0 <= j < k implies old(self)@[j].id != alert_id@ by {
                        assert(old(self)@[j] == old(self).alerts@[j]@);
                    }
                    assert(old(self)@[k] == old(self).alerts@[k]@);
                    lemma_first_alert(old(self)@, alert_id@, k);
                }
                let mut alerts: Vec<Alert> = Vec::new();
                std::mem::swap(&mut alerts, &mut self.alerts);
                let ghost all = alerts@;
                let mut alert = alerts.remove(i);
                alert.resolved = true;
                alerts.insert(i, alert);
                proof {
                    assert(alerts@ =~= all.update(k, alert));
                    lemma_views_update(all, k, alert);
                    assert(alert@ == AlertView { resolved: true, ..old(self)@[k] });
                }
                self.alerts = alerts;
                return true;
            }
            i = i + 1;
        }
        proof {
            if first_alert_with_id(old(self)@, alert_id@) is Some {
                let j = choose|j: int| 0 <= j < old(self)@.len() && old(self)@[j].id == alert_id@;
                assert(old(self)@[j] == old(self).alerts@[j]@);
            }
        }
        false
    }

    /// How many alerts meet `p`.
    fn count_selected(&self, severity: Option<AlertSeverity>) -> (r: usize)
        ensures
            r == alerts_selected(self@, severity).len(),
    {
        let mut count: usize = 0;
        let n = self.alerts.len();
        let mut i: usize = 0;
        while i < n
            invariant
                n == self.alerts@.len(),
                n == self@.len(),
                i <= n,
                count == alerts_selected(self@.subrange(0, i as int), severity).len(),
            decreases n - i,
        {
            proof {
                lemma_alerts_selected_len(self@.subrange(0, i as int), severity);
            }
            let a = &self.alerts[i];
            assert(self@.subrange(0, i + 1).drop_last() =~= self@.subrange(0, i as int));
            assert(self@.subrange(0, i + 1).last() == a@);
            let keep = !a.resolved && match severity {
                Some(s) => a.severity == s,
                None => true,
            };
            assert(keep == selects(a@, severity));
            if keep {
                count = count + 1;
            }
            i = i + 1;
        }
        assert(self@.subrange(0, n as int) =~= self@);
        count
    }

    /// Get alert statistics.
    pub fn get_alert_stats(&self) -> (r: AlertStats)
        ensures
            r == stats_of(self@),
    {
        AlertStats {
            total_alerts: self.alerts.len(),
            active_alerts: self.count_selected(None),
            critical_alerts: self.count_selected(Some(AlertSeverity::Critical)),
            high_alerts: self.count_selected(Some(AlertSeverity::High)),
            medium_alerts: self.count_selected(Some(AlertSeverity::Medium)),
            low_alerts: self.count_selected(Some(AlertSeverity::Low)),
        }
    }

    /// Keeps the alerts whose flag in `keep` is set, in their order.
    pub fn retain_flagged(&mut self, keep: &Vec<bool>)
        requires
            keep@.len() == old(self)@.len(),
        ensures
            final(self)@ == alerts_where_flagged(old(self)@, keep@),
    {
        let mut alerts: Vec<Alert> = Vec::new();
        std::mem::swap(&mut alerts, &mut self.alerts);
        let _ = alerts.len();
        let ghost all = alert_views(alerts@);
        let ghost total = all.len() as int;
        let mut kept: Vec<Alert> = Vec::new();
        let mut i: usize = 0;
        assert(alert_views(kept@) =~= Seq::<AlertView>::empty());
        assert(all.subrange(0, total) =~= all);
        while alerts.len() > 0
            invariant
                total == all.len(),
                total <= usize::MAX,
                keep@.len() == total,
                i + alerts@.len() == total,
                alert_views(alerts@) == all.subrange(i as int, total),
                alert_views(kept@) == alerts_where_flagged(all.subrange(0, i as int), keep@.subrange(0, i as int)),
            decreases alerts@.len(),
        {
            let ghost cur = alerts@;
            assert(alert_views(cur)[0] == cur[0]@);
            let a = alerts.remove(0);
            assert(alerts@ == cur.remove(0));
            assert(alert_views(alerts@) =~= alert_views(cur).subrange(1, cur.len() as int));
            assert(all[i as int] == a@);
            assert(all.subrange(0, i + 1).drop_last() =~= all.subrange(0, i as int));
            assert(keep@.subrange(0, i + 1).drop_last() =~= keep@.subrange(0, i as int));
            if keep[i] {
                kept.push(a);
                assert(alert_views(kept@) =~= alerts_where_flagged(
                    all.subrange(0, i as int),
                    keep@.subrange(0, i as int),
                ).push(all[i as int]));
            }
            i = i + 1;
            assert(alert_views(alerts@) =~= all.subrange(i as int, total));
        }
        assert(all.subrange(0, total) =~= all);
        assert(keep@.subrange(0, total) =~= keep@);
        self.alerts = kept;
    }
}

/// The alerts of `s` whose flag in `keep` is set, in their order.
pub open spec fn alerts_where_flagged(s: Seq<AlertView>, keep: Seq<bool>) -> Seq<AlertView>
    decreases s.len(),
{
    if s.len() == 0 || keep.len() == 0 {
        Seq::empty()
    } else if keep.last() {
        alerts_where_flagged(s.drop_last(), keep.drop_last()).push(s.last())
    } else {
        alerts_where_flagged(s.drop_last(), keep.drop_last())
    }
}

/// The alert raised when memory use passes its threshold: `None` while the
/// use stays within it; critical past twice the threshold, high otherwise.
pub open spec fn memory_alert_of(current: usize, peak: usize, threshold: usize, uptime_secs: u64) -> Option<(Seq<char>, Seq<char>, AlertSeverity, Seq<(Seq<char>, Seq<char>)>)> {
    if current > threshold {
        Some(
            (
                "high_memory_usage_"@ + decimal(uptime_secs as nat),
                "Memory usage "@ + decimal(current as nat) + " bytes exceeds threshold "@ + decimal(
                    threshold as nat,
                ) + " bytes"@,
                if current > threshold * 2 {
                    AlertSeverity::Critical
                } else {
                    AlertSeverity::High
                },
                seq![
                    ("current_memory_bytes"@, decimal(current as nat)),
                    ("peak_memory_bytes"@, decimal(peak as nat)),
                    ("threshold_bytes"@, decimal(threshold as nat)),
                ],
            ),
        )
    } else {
        None
    }
}

/// The memory alert for the current memory figures, raised at `timestamp`
/// with `uptime_secs` in its id.
pub fn check_memory_usage(
    current: usize,
    peak: usize,
    threshold: usize,
    timestamp: std::time::Instant,
    uptime_secs: u64,
) -> (r: Option<Alert>)
    requires
        current > threshold ==> threshold * 2 <= usize::MAX,
    ensures
        match memory_alert_of(current, peak, threshold, uptime_secs) {
            None => r is None,
            Some((id, message, severity, metadata)) => r matches Some(a) && a@ == AlertView {
                id,
                alert_type: AlertType::HighMemoryUsage,
                message,
                severity,
                timestamp,
                resolved: false,
                metadata,
            },
        },
{
    if current <= threshold {
        return None;
    }
    let mut id = String::new();
    append_str(&mut id, "high_memory_usage_");
    append_decimal(&mut id, uptime_secs);
    let mut message = String::new();
    append_str(&mut message, "Memory usage ");
    append_decimal(&mut message, current as u64);
    append_str(&mut message, " bytes exceeds threshold ");
    append_decimal(&mut message, threshold as u64);
    append_str(&mut message, " bytes");
    let severity = if current > threshold * 2 {
        AlertSeverity::Critical
    } else {
        AlertSeverity::High
    };
    let mut metadata: Vec<(String, String)> = Vec::new();
    metadata.push(("current_memory_bytes".to_owned(), u64_to_decimal(current as u64)));
    metadata.push(("peak_memory_bytes".to_owned(), u64_to_decimal(peak as u64)));
    metadata.push(("threshold_bytes".to_owned(), u64_to_decimal(threshold as u64)));
    proof {
        reveal_strlit("high_memory_usage_");
        reveal_strlit("Memory usage ");
        reveal_strlit(" bytes exceeds threshold ");
        reveal_strlit(" bytes");
        reveal_strlit("current_memory_bytes");
        reveal_strlit("peak_memory_bytes");
        reveal_strlit("threshold_bytes");
    }
    let alert = Alert {
        id,
        alert_type: AlertType::HighMemoryUsage,
        message,
        severity,
        timestamp,
        resolved: false,
        metadata,
    };
    assert(pair_views(alert.metadata@) =~= seq![
        ("current_memory_bytes"@, decimal(current as nat)),
        ("peak_memory_bytes"@, decimal(peak as nat)),
        ("threshold_bytes"@, decimal(threshold as nat)),
    ]);
    Some(alert)
}

proof fn lemma_active_split(s: Seq<AlertView>)
    ensures
        alerts_selected(s, None).len() == alerts_selected(s, Some(AlertSeverity::Critical)).len()
            + alerts_selected(s, Some(AlertSeverity::High)).len() + alerts_selected(
            s,
            Some(AlertSeverity::Medium),
        ).len() + alerts_selected(s, Some(AlertSeverity::Low)).len(),
    decreases s.len(),
{
    if s.len() > 0 {
        lemma_active_split(s.drop_last());
    }
}

/// Every active alert has exactly one severity: the active count is the sum
/// of the counts by severity, and no count exceeds the total.
pub proof fn law_active_alerts_by_severity(s: Seq<AlertView>)
    requires
        s.len() <= usize::MAX,
    ensures
        stats_of(s).active_alerts == stats_of(s).critical_alerts + stats_of(s).high_alerts
            + stats_of(s).medium_alerts + stats_of(s).low_alerts,
        stats_of(s).active_alerts <= stats_of(s).total_alerts,
{
    lemma_active_split(s);
    lemma_alerts_selected_len(s, None);
}

/// Resolving an alert takes it out of the active ones: after a successful
/// resolution of an active alert, one alert fewer is active.
pub proof fn law_resolve_deactivates(before: Seq<AlertView>, after: Seq<AlertView>, i: int)
    requires
        0 <= i < before.len(),
        !before[i].resolved,
        after == before.update(i, AlertView { resolved: true, ..before[i] }),
    ensures
        alerts_selected(after, None).len() + 1 == alerts_selected(before, None).len(),
    decreases before.len(),
{
    if i < before.len() - 1 {
        assert(after.drop_last() =~= before.drop_last().update(i, AlertView { resolved: true, ..before[i] }));
        law_resolve_deactivates(before.drop_last(), after.drop_last(), i);
    } else {
        assert(after.drop_last() =~= before.drop_last());
    }
}

} // verus!
