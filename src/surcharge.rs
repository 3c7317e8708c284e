use vstd::prelude::*;

use crate::enums::{CardNetwork, PaymentMethod, PaymentMethodType};

verus! {

/// The fee applied to a payment, in minor units of its currency.
#[derive(Clone, Copy, PartialEq, Eq, Structural, Debug)]
pub struct SurchargeDetails {
    pub original_amount: i64,
    pub surcharge_amount: i64,
    pub tax_on_surcharge_amount: i64,
}

/// What a merchant's surcharge table is keyed by.
#[derive(Clone, Copy, PartialEq, Eq, Structural, Debug, Hash)]
pub struct SurchargeKey {
    pub payment_method: PaymentMethod,
    pub payment_method_type: PaymentMethodType,
    pub card_network: Option<CardNetwork>,
}

/// A merchant's surcharge table. A later insert for a key replaces the earlier one.
#[derive(Clone, Debug)]
pub struct SurchargeMetadata {
    entries: Vec<(SurchargeKey, SurchargeDetails)>,
}

/// The details recorded last for `k` in `entries`.
pub open spec fn last_surcharge_for(entries: Seq<(SurchargeKey, SurchargeDetails)>, k: SurchargeKey) -> Option<
    SurchargeDetails,
>
    decreases entries.len(),
{
    if entries.len() == 0 {
        None
    } else if entries.last().0 == k {
        Some(entries.last().1)
    } else {
        last_surcharge_for(entries.drop_last(), k)
    }
}

impl SurchargeMetadata {
    /// The table's entry for `k`.
    pub closed spec fn spec_get(&self, k: SurchargeKey) -> Option<SurchargeDetails> {
        last_surcharge_for(self.entries@, k)
    }

    pub fn new() -> (r: Self)
        ensures
            forall|k: SurchargeKey| r.spec_get(k) is None,
    {
        SurchargeMetadata { entries: Vec::new() }
    }

    /// Records `details` for `k`.
    pub fn insert_surcharge_details(&mut self, k: SurchargeKey, details: SurchargeDetails)
        ensures
            final(self).spec_get(k) == Some(details),
            forall|j: SurchargeKey| j != k ==> final(self).spec_get(j) == old(self).spec_get(j),
    {
        self.entries.push((k, details));
        assert(self.entries@.drop_last() =~= old(self).entries@);
    }

    /// The table's entry for `k`.
    pub fn get_surcharge_details(&self, k: SurchargeKey) -> (r: Option<&SurchargeDetails>)
        ensures
            match r {
                Some(d) => self.spec_get(k) == Some(*d),
                None => self.spec_get(k) is None,
            },
    {
        let mut i: usize = self.entries.len();
        assert(self.entries@.subrange(0, i as int) =~= self.entries@);
        while i > 0
            invariant
                i <= self.entries.len(),
                last_surcharge_for(self.entries@, k) == last_surcharge_for(
                    self.entries@.subrange(0, i as int),
                    k,
                ),
            decreases i,
        {
            assert(self.entries@.subrange(0, i as int).drop_last() =~= self.entries@.subrange(0, i - 1));
            if self.entries[i - 1].0 == k {
                return Some(&self.entries[i - 1].1);
            }
            i = i - 1;
        }
        None
    }
}

/// Where a session's surcharge comes from.
#[derive(Clone, Debug)]
pub enum SessionSurchargeDetails {
    /// Calculated by the switch, per payment method.
    Calculated(SurchargeMetadata),
    /// Declared by the merchant, for every payment method.
    PreDetermined(SurchargeDetails),
}

/// The key that a payment method selection looks up.
pub open spec fn selection_key(
    payment_method: PaymentMethod,
    payment_method_type: PaymentMethodType,
    card_network: Option<&CardNetwork>,
) -> SurchargeKey {
    SurchargeKey {
        payment_method,
        payment_method_type,
        card_network: match card_network {
            Some(c) => Some(*c),
            None => None,
        },
    }
}

impl SessionSurchargeDetails {
    /// The surcharge of a payment method selection: the merchant's declared record
    /// whatever the selection, or the calculated table's entry for it, if any.
    pub fn fetch_surcharge_details(
        &self,
        payment_method: PaymentMethod,
        payment_method_type: PaymentMethodType,
        card_network: Option<&CardNetwork>,
    ) -> (r: Option<SurchargeDetails>)
        ensures
            r == match self {
                SessionSurchargeDetails::Calculated(m) => m.spec_get(
                    selection_key(payment_method, payment_method_type, card_network),
                ),
                SessionSurchargeDetails::PreDetermined(d) => Some(*d),
            },
    {
        match self {
            SessionSurchargeDetails::Calculated(surcharge_metadata) => {
                let network = match card_network {
                    Some(c) => Some(*c),
                    None => None,
                };
                let key = SurchargeKey { payment_method, payment_method_type, card_network: network };
                match surcharge_metadata.get_surcharge_details(key) {
                    Some(d) => Some(*d),
                    None => None,
                }
            },
            SessionSurchargeDetails::PreDetermined(surcharge_details) => Some(*surcharge_details),
        }
    }
}

} // verus!
