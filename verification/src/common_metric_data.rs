//! The identity of a metric and its recording policy.

use crate::Glean;
use vstd::prelude::*;
use vstd::string::StringExecFns;

verus! {

/// When the stored value of a metric is cleared.
#[derive(Clone, Copy, Debug, PartialEq, Eq, Structural)]
pub enum Lifetime {
    /// The metric is reset with each sent ping.
    Ping,
    /// The metric is reset on application restart.
    Application,
    /// The metric is reset with each user profile.
    User,
}

impl Default for Lifetime {
    fn default() -> (lifetime: Self)
        ensures
            lifetime == Lifetime::Ping,
    {
        Lifetime::Ping
    }
}

/// What a metric's metadata holds, as plain values.
pub ghost struct CommonMetricDataView {
    pub name: Seq<char>,
    pub category: Seq<char>,
    pub send_in_pings: Seq<Seq<char>>,
    pub lifetime: Lifetime,
    pub disabled: bool,
}

impl CommonMetricDataView {
    /// The fully qualified identifier: the category, a dot and the name. An
    /// empty category leaves the dot in front.
    pub open spec fn fullname(self) -> Seq<char> {
        self.category + seq!['.'] + self.name
    }

    /// Whether a recording attempt has an effect while the upload flag is
    /// `upload_enabled`: the metric must not be disabled, and upload must be
    /// permitted.
    pub open spec fn should_record(self, upload_enabled: bool) -> bool {
        !self.disabled && upload_enabled
    }
}

/// The metadata that every metric instrument carries.
pub struct CommonMetricData {
    /// The metric's name, unique within its category.
    pub name: String,
    /// The metric's category; empty for an uncategorized metric.
    pub category: String,
    /// The pings that the metric's value is included in, in the order given.
    pub send_in_pings: Vec<String>,
    /// When the metric's stored value is cleared.
    pub lifetime: Lifetime,
    /// Whether the metric is administratively turned off.
    pub disabled: bool,
}

impl View for CommonMetricData {
    type V = CommonMetricDataView;

    open spec fn view(&self) -> CommonMetricDataView {
        CommonMetricDataView {
            name: self.name@,
            category: self.category@,
            send_in_pings: self.send_in_pings.deep_view(),
            lifetime: self.lifetime,
            disabled: self.disabled,
        }
    }
}

impl Default for CommonMetricData {
    /// Metadata with no name, no category and no pings, reset with each
    /// ping, and not disabled.
    fn default() -> (data: Self)
        ensures
            data@.name == Seq::<char>::empty(),
            data@.category == Seq::<char>::empty(),
            data@.send_in_pings == Seq::<Seq<char>>::empty(),
            data@.lifetime == Lifetime::Ping,
            !data@.disabled,
    {
        let data = CommonMetricData {
            name: String::new(),
            category: String::new(),
            send_in_pings: Vec::new(),
            lifetime: Lifetime::Ping,
            disabled: false,
        };
        assert(data.send_in_pings.deep_view() =~= Seq::<Seq<char>>::empty());
        data
    }
}

impl CommonMetricData {
    /// Metadata made of exactly the given parts.
    pub fn new(
        name: String,
        category: String,
        send_in_pings: Vec<String>,
        lifetime: Lifetime,
        disabled: bool,
    ) -> (data: Self)
        ensures
            data.name == name,
            data.category == category,
            data.send_in_pings == send_in_pings,
            data.lifetime == lifetime,
            data.disabled == disabled,
    {
        CommonMetricData { name, category, send_in_pings, lifetime, disabled }
    }

    /// The metric's fully qualified identifier.
    pub fn fullname(&self) -> (fullname: String)
        ensures
            fullname@ == self@.fullname(),
    {
        let mut fullname = self.category.clone();
        fullname.append(".");
        fullname.append(self.name.as_str());
        proof {
            reveal_strlit(".");
            assert("."@ =~= seq!['.']);
        }
        fullname
    }

    /// Whether a recording attempt on this metric should have any effect,
    /// given the telemetry state as it is now. The metric's own flag is
    /// looked at first, the telemetry state only where the metric is not
    /// disabled.
    pub fn should_record(&self, glean: &Glean) -> (record: bool)
        ensures
            record == self@.should_record(glean.upload_enabled()),
    {
        if self.disabled || !glean.is_upload_enabled() {
            return false;
        }
        true
    }

    /// The pings that the metric is stored under, as they were configured.
    pub fn storage_names(&self) -> (names: &[String])
        ensures
            names@ == self.send_in_pings@,
            names.deep_view() == self@.send_in_pings,
    {
        self.send_in_pings.as_slice()
    }
}

/// A disabled metric never records, whatever the upload flag is.
pub proof fn lemma_disabled_never_records(data: CommonMetricDataView, upload_enabled: bool)
    requires
        data.disabled,
    ensures
        !data.should_record(upload_enabled),
{
}

/// A metric that is not disabled records exactly when upload is permitted.
pub proof fn lemma_enabled_follows_upload(data: CommonMetricDataView, upload_enabled: bool)
    requires
        !data.disabled,
    ensures
        data.should_record(upload_enabled) == upload_enabled,
{
}

/// The decision depends on the telemetry state through its upload flag
/// alone: asked twice of states that agree on the flag, a metric gives the
/// same answer both times.
pub proof fn lemma_should_record_stable(data: CommonMetricDataView, first: Glean, second: Glean)
    requires
        first.upload_enabled() == second.upload_enabled(),
    ensures
        data.should_record(first.upload_enabled()) == data.should_record(second.upload_enabled()),
{
}

} // verus!
