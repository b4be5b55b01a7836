//! What DeepSeek charges at the moment.

use vstd::prelude::*;
use crate::settings::{place_of, Settings};
use crate::text::{seen, views};

verus! {

/// The periods of the day between which prices differ.
#[derive(Clone, Copy, Debug, PartialEq, Eq, Structural)]
pub enum PricingPeriod {
    Standard,
    Peak,
    OffPeak,
}

/// What is shown of the prices. Times are local and written out.
#[derive(Debug)]
pub struct DeepSeekPricingStatus {
    pub period: &'static str,
    pub current_local_time: String,
    pub next_transition_local_time: Option<String>,
    pub effective_local_time: String,
}

impl PricingPeriod {
    /// The name of a period.
    pub open spec fn label(self) -> Seq<char> {
        match self {
            PricingPeriod::Standard => "standard"@,
            PricingPeriod::Peak => "peak"@,
            PricingPeriod::OffPeak => "offPeak"@,
        }
    }

    /// The name of a period.
    pub fn name(self) -> (r: &'static str)
        ensures
            r@ == self.label(),
    {
        match self {
            PricingPeriod::Standard => "standard",
            PricingPeriod::Peak => "peak",
            PricingPeriod::OffPeak => "offPeak",
        }
    }
}

/// What is shown of the prices, where DeepSeek is switched on.
pub fn get_deepseek_pricing_status(
    settings: &Settings,
    period: PricingPeriod,
    current_local_time: String,
    next_transition_local_time: Option<String>,
    effective_local_time: String,
) -> (r: Option<DeepSeekPricingStatus>)
    ensures
        r is Some <==> views(settings.enabled_providers@).contains("deepseek"@),
        r matches Some(status) ==> {
            &&& status.period@ == period.label()
            &&& status.current_local_time@ == current_local_time@
            &&& seen(status.next_transition_local_time) == seen(next_transition_local_time)
            &&& status.effective_local_time@ == effective_local_time@
        },
{
    if place_of(&settings.enabled_providers, "deepseek").is_none() {
        return None;
    }
    Some(
        DeepSeekPricingStatus {
            period: period.name(),
            current_local_time,
            next_transition_local_time,
            effective_local_time,
        },
    )
}

/// Prices are shown exactly where the provider is switched on, with the period and the times as they
/// are.
pub proof fn prices_are_shown_for_a_provider_that_is_on(
    settings: &Settings,
    period: PricingPeriod,
    now: String,
    next: Option<String>,
    effective: String,
    r: Option<DeepSeekPricingStatus>,
)
    requires
        call_ensures(get_deepseek_pricing_status, (settings, period, now, next, effective), r),
    ensures
        r is Some <==> exists|i: int|
            0 <= i < settings.enabled_providers@.len() && (
            #[trigger] settings.enabled_providers@[i])@ == "deepseek"@,
        r matches Some(status) ==> status.current_local_time@ == now@ && seen(
            status.next_transition_local_time,
        ) == seen(next) && status.effective_local_time@ == effective@,
        r is Some && period == PricingPeriod::Peak ==> r->Some_0.period@ == "peak"@,
        r is Some && period == PricingPeriod::OffPeak ==> r->Some_0.period@ == "offPeak"@,
        r is Some && period == PricingPeriod::Standard ==> r->Some_0.period@ == "standard"@,
{
    let names = settings.enabled_providers@;
    if views(names).contains("deepseek"@) {
        let i = views(names).index_of("deepseek"@);
        assert(names[i]@ == "deepseek"@);
    }
    if exists|i: int| 0 <= i < names.len() && (#[trigger] names[i])@ == "deepseek"@ {
        let i = choose|i: int| 0 <= i < names.len() && (#[trigger] names[i])@ == "deepseek"@;
        assert(views(names)[i] == "deepseek"@);
    }
}

} // verus!
