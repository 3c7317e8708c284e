use vstd::prelude::*;

use crate::connector::{same_account, same_account_exec, ConnectorData};
use crate::enums::{PaymentMethod, PaymentMethodType};
use crate::errors::{ApiErrorResponse, InternalCause};

verus! {

/// A candidate connector offered to the client for one payment method subtype.
#[derive(Debug)]
pub struct SessionConnectorData {
    pub payment_method_sub_type: PaymentMethodType,
    pub payment_method_type: PaymentMethod,
    pub connector: ConnectorData,
    pub business_sub_label: Option<String>,
}

impl Clone for SessionConnectorData {
    fn clone(&self) -> (r: Self)
        ensures
            r == *self,
    {
        let business_sub_label = match &self.business_sub_label {
            Some(s) => Some(s.clone()),
            None => None,
        };
        SessionConnectorData {
            payment_method_sub_type: self.payment_method_sub_type,
            payment_method_type: self.payment_method_type,
            connector: self.connector.clone(),
            business_sub_label,
        }
    }
}

impl SessionConnectorData {
    pub fn new(
        payment_method_sub_type: PaymentMethodType,
        connector: ConnectorData,
        business_sub_label: Option<String>,
        payment_method_type: PaymentMethod,
    ) -> (r: Self)
        ensures
            r.payment_method_sub_type == payment_method_sub_type,
            r.payment_method_type == payment_method_type,
            r.connector == connector,
            r.business_sub_label == business_sub_label,
    {
        SessionConnectorData {
            payment_method_sub_type,
            payment_method_type,
            connector,
            business_sub_label,
        }
    }
}

/// The routing engine's choice of connector for a payment method subtype.
#[derive(Debug)]
pub struct SessionRoutingChoice {
    pub connector: ConnectorData,
    pub payment_method_type: PaymentMethodType,
}

impl Clone for SessionRoutingChoice {
    fn clone(&self) -> (r: Self)
        ensures
            r == *self,
    {
        SessionRoutingChoice {
            connector: self.connector.clone(),
            payment_method_type: self.payment_method_type,
        }
    }
}

/// The routing engine's output: for each payment method subtype, its choices in
/// priority order. A later insert for a subtype replaces the earlier one.
#[derive(Debug)]
pub struct RoutingResults {
    entries: Vec<(PaymentMethodType, Vec<SessionRoutingChoice>)>,
}

/// The choices recorded last for `k` in `entries`.
pub open spec fn last_entry_for(
    entries: Seq<(PaymentMethodType, Vec<SessionRoutingChoice>)>,
    k: PaymentMethodType,
) -> Option<Seq<SessionRoutingChoice>>
    decreases entries.len(),
{
    if entries.len() == 0 {
        None
    } else if entries.last().0 == k {
        Some(entries.last().1@)
    } else {
        last_entry_for(entries.drop_last(), k)
    }
}

impl RoutingResults {
    /// The choices for subtype `k`, if routing produced a result for it.
    pub closed spec fn spec_get(&self, k: PaymentMethodType) -> Option<Seq<SessionRoutingChoice>> {
        last_entry_for(self.entries@, k)
    }

    pub fn new() -> (r: Self)
        ensures
            forall|k: PaymentMethodType| r.spec_get(k) is None,
    {
        RoutingResults { entries: Vec::new() }
    }

    /// Records `choices` as the routing result of subtype `k`.
    pub fn insert(&mut self, k: PaymentMethodType, choices: Vec<SessionRoutingChoice>)
        ensures
            final(self).spec_get(k) == Some(choices@),
            forall|j: PaymentMethodType| j != k ==> final(self).spec_get(j) == old(self).spec_get(j),
    {
        self.entries.push((k, choices));
        assert(self.entries@.drop_last() =~= old(self).entries@);
    }

    /// The choices for subtype `k`.
    pub fn get(&self, k: PaymentMethodType) -> (r: Option<&Vec<SessionRoutingChoice>>)
        ensures
            match r {
                Some(v) => self.spec_get(k) == Some(v@),
                None => self.spec_get(k) is None,
            },
    {
        let mut i: usize = self.entries.len();
        assert(self.entries@.subrange(0, i as int) =~= self.entries@);
        while i > 0
            invariant
                i <= self.entries.len(),
                last_entry_for(self.entries@, k) == last_entry_for(self.entries@.subrange(0, i as int), k),
            decreases i,
        {
            assert(self.entries@.subrange(0, i as int).drop_last() =~= self.entries@.subrange(0, i - 1));
            if self.entries[i - 1].0 == k {
                return Some(&self.entries[i - 1].1);
            }
            i = i - 1;
        }
        None
    }
}

/// The payment method subtypes and payment methods on which session routing acts.
#[derive(Debug, Clone)]
pub struct SessionRoutingConfig {
    pub payment_method_types: Vec<PaymentMethodType>,
    pub payment_methods: Vec<PaymentMethod>,
}

impl SessionRoutingConfig {
    /// The subtypes and methods that the switch routes for session flows.
    pub fn routing_enabled() -> (r: Self)
        ensures
            r.payment_method_types@ == seq![
                PaymentMethodType::GooglePay,
                PaymentMethodType::ApplePay,
                PaymentMethodType::Klarna,
                PaymentMethodType::Paypal,
                PaymentMethodType::SamsungPay,
            ],
            r.payment_methods@ == seq![PaymentMethod::BankTransfer, PaymentMethod::BankRedirect],
    {
        let payment_method_types = vec![
            PaymentMethodType::GooglePay,
            PaymentMethodType::ApplePay,
            PaymentMethodType::Klarna,
            PaymentMethodType::Paypal,
            PaymentMethodType::SamsungPay,
        ];
        let payment_methods = vec![PaymentMethod::BankTransfer, PaymentMethod::BankRedirect];
        let r = SessionRoutingConfig { payment_method_types, payment_methods };
        assert(r.payment_method_types@ =~= seq![
            PaymentMethodType::GooglePay,
            PaymentMethodType::ApplePay,
            PaymentMethodType::Klarna,
            PaymentMethodType::Paypal,
            PaymentMethodType::SamsungPay,
        ]);
        assert(r.payment_methods@ =~= seq![PaymentMethod::BankTransfer, PaymentMethod::BankRedirect]);
        r
    }
}

pub fn contains_subtype(v: &Vec<PaymentMethodType>, x: PaymentMethodType) -> (r: bool)
    ensures
        r == v@.contains(x),
{
    let mut i: usize = 0;
    while i < v.len()
        invariant
            i <= v.len(),
            forall|j: int| 0 <= j < i ==> v@[j] != x,
        decreases v.len() - i,
    {
        if v[i] == x {
            return true;
        }
        i = i + 1;
    }
    false
}

pub fn contains_method(v: &Vec<PaymentMethod>, x: PaymentMethod) -> (r: bool)
    ensures
        r == v@.contains(x),
{
    let mut i: usize = 0;
    while i < v.len()
        invariant
            i <= v.len(),
            forall|j: int| 0 <= j < i ==> v@[j] != x,
        decreases v.len() - i,
    {
        if v[i] == x {
            return true;
        }
        i = i + 1;
    }
    false
}

/// A candidate stays in the session routing filter when its subtype or its
/// payment method is routing-enabled.
pub open spec fn routing_enabled_for(
    pmts: Seq<PaymentMethodType>,
    pms: Seq<PaymentMethod>,
) -> spec_fn(SessionConnectorData) -> bool {
    |c: SessionConnectorData|
        pmts.contains(c.payment_method_sub_type) || pms.contains(c.payment_method_type)
}

/// Routing covers the candidate's subtype, yet its decision list is empty.
pub open spec fn decision_missing(
    c: SessionConnectorData,
    pmts: Seq<PaymentMethodType>,
    results: RoutingResults,
) -> bool {
    pmts.contains(c.payment_method_sub_type) && results.spec_get(c.payment_method_sub_type)
        == Some(Seq::<SessionRoutingChoice>::empty())
}

/// The candidate's connector and account scope are exactly the routing choice's.
pub open spec fn matches_choice(c: SessionConnectorData, choice: SessionRoutingChoice) -> bool {
    c.connector.connector_name == choice.connector.connector_name && same_account(
        c.connector.merchant_connector_id,
        choice.connector.merchant_connector_id,
    )
}

/// Whether reconciliation keeps a candidate: routing does not cover its subtype, or
/// it matches the top choice of its subtype's routing result.
pub open spec fn kept_by_routing(
    pmts: Seq<PaymentMethodType>,
    results: RoutingResults,
) -> spec_fn(SessionConnectorData) -> bool {
    |c: SessionConnectorData|
        !pmts.contains(c.payment_method_sub_type) || match results.spec_get(
            c.payment_method_sub_type,
        ) {
            Some(choices) => choices.len() > 0 && matches_choice(c, choices[0]),
            None => false,
        }
}

/// An ordered set of session candidates.
#[derive(Debug, Clone)]
pub struct SessionConnectorDatas {
    list: Vec<SessionConnectorData>,
}

impl View for SessionConnectorDatas {
    type V = Seq<SessionConnectorData>;

    closed spec fn view(&self) -> Seq<SessionConnectorData> {
        self.list@
    }
}

impl SessionConnectorDatas {
    pub fn new(list: Vec<SessionConnectorData>) -> (r: Self)
        ensures
            r@ == list@,
    {
        SessionConnectorDatas { list }
    }

    pub fn push(&mut self, item: SessionConnectorData)
        ensures
            final(self)@ == old(self)@.push(item),
    {
        self.list.push(item);
    }

    pub fn len(&self) -> (r: usize)
        ensures
            r == self@.len(),
    {
        self.list.len()
    }

    pub fn is_empty(&self) -> (r: bool)
        ensures
            r == (self@.len() == 0),
    {
        self.list.len() == 0
    }

    pub fn get(&self, i: usize) -> (r: &SessionConnectorData)
        requires
            i < self@.len(),
        ensures
            *r == self@[i as int],
    {
        &self.list[i]
    }

    pub fn into_inner(self) -> (r: Vec<SessionConnectorData>)
        ensures
            r@ == self@,
    {
        self.list
    }

    /// Keeps the candidates whose subtype or payment method is routing-enabled
    /// under the switch's own configuration.
    pub fn apply_filter_for_session_routing(&self) -> (r: Self)
        ensures
            r@ == self@.filter(
                routing_enabled_for(
                    seq![
                        PaymentMethodType::GooglePay,
                        PaymentMethodType::ApplePay,
                        PaymentMethodType::Klarna,
                        PaymentMethodType::Paypal,
                        PaymentMethodType::SamsungPay,
                    ],
                    seq![PaymentMethod::BankTransfer, PaymentMethod::BankRedirect],
                ),
            ),
    {
        let config = SessionRoutingConfig::routing_enabled();
        self.apply_filter_with(&config)
    }

    /// Keeps, in order, the candidates whose subtype or payment method `config` enables.
    pub fn apply_filter_with(&self, config: &SessionRoutingConfig) -> (r: Self)
        ensures
            r@ == self@.filter(
                routing_enabled_for(config.payment_method_types@, config.payment_methods@),
            ),
    {
        let ghost p = routing_enabled_for(config.payment_method_types@, config.payment_methods@);
        let mut out: Vec<SessionConnectorData> = Vec::new();
        let mut i: usize = 0;
        while i < self.list.len()
            invariant
                i <= self.list@.len(),
                p == routing_enabled_for(config.payment_method_types@, config.payment_methods@),
                out@ == self.list@.subrange(0, i as int).filter(p),
            decreases self.list@.len() - i,
        {
            let item = &self.list[i];
            proof {
                assert(self.list@.subrange(0, i + 1) =~= self.list@.subrange(0, i as int).push(
                    self.list@[i as int],
                ));
                self.list@.subrange(0, i as int).lemma_filter_push(self.list@[i as int], p);
            }
            let enabled = contains_subtype(&config.payment_method_types, item.payment_method_sub_type)
                || contains_method(&config.payment_methods, item.payment_method_type);
            assert(p(*item) == enabled);
            if enabled {
                out.push(item.clone());
            }
            i = i + 1;
        }
        assert(self.list@.subrange(0, self.list@.len() as int) =~= self.list@);
        SessionConnectorDatas { list: out }
    }

    /// Reconciles the candidates with the routing engine's decisions under the
    /// switch's own routing-enabled subtypes.
    pub fn filter_and_validate_for_session_flow(self, routing_results: &RoutingResults) -> (r:
        Result<Self, ApiErrorResponse>)
        ensures
            ({
                let pmts = seq![
                    PaymentMethodType::GooglePay,
                    PaymentMethodType::ApplePay,
                    PaymentMethodType::Klarna,
                    PaymentMethodType::Paypal,
                    PaymentMethodType::SamsungPay,
                ];
                match r {
                    Ok(out) => {
                        &&& forall|i: int|
                            0 <= i < self@.len() ==> !decision_missing(
                                #[trigger] self@[i],
                                pmts,
                                *routing_results,
                            )
                        &&& out@ == self@.filter(kept_by_routing(pmts, *routing_results))
                    },
                    Err(e) => {
                        &&& e == ApiErrorResponse::InternalServerError(
                            InternalCause::MissingRoutingDecision,
                        )
                        &&& exists|i: int|
                            0 <= i < self@.len() && decision_missing(
                                #[trigger] self@[i],
                                pmts,
                                *routing_results,
                            )
                    },
                }
            }),
    {
        let config = SessionRoutingConfig::routing_enabled();
        self.filter_and_validate_with(&config.payment_method_types, routing_results)
    }

    /// Reconciles the candidates with the routing engine's decisions: a candidate
    /// whose subtype is not in `routing_enabled` stays; one whose subtype has no
    /// routing result is dropped; one whose subtype has results stays only if it
    /// matches the top choice exactly. An empty decision list for a covered
    /// subtype fails the whole call.
    pub fn filter_and_validate_with(
        self,
        routing_enabled: &Vec<PaymentMethodType>,
        routing_results: &RoutingResults,
    ) -> (r: Result<Self, ApiErrorResponse>)
        ensures
            match r {
                Ok(out) => {
                    &&& forall|i: int|
                        0 <= i < self@.len() ==> !decision_missing(
                            #[trigger] self@[i],
                            routing_enabled@,
                            *routing_results,
                        )
                    &&& out@ == self@.filter(kept_by_routing(routing_enabled@, *routing_results))
                },
                Err(e) => {
                    &&& e == ApiErrorResponse::InternalServerError(
                        InternalCause::MissingRoutingDecision,
                    )
                    &&& exists|i: int|
                        0 <= i < self@.len() && decision_missing(
                            #[trigger] self@[i],
                            routing_enabled@,
                            *routing_results,
                        )
                },
            },
    {
        let ghost p = kept_by_routing(routing_enabled@, *routing_results);
        let mut final_list: Vec<SessionConnectorData> = Vec::new();
        let mut i: usize = 0;
        while i < self.list.len()
            invariant
                i <= self.list@.len(),
                p == kept_by_routing(routing_enabled@, *routing_results),
                final_list@ == self.list@.subrange(0, i as int).filter(p),
                forall|j: int|
                    0 <= j < i ==> !decision_missing(
                        #[trigger] self.list@[j],
                        routing_enabled@,
                        *routing_results,
                    ),
            decreases self.list@.len() - i,
        {
            let connector_data = &self.list[i];
            proof {
                assert(self.list@.subrange(0, i + 1) =~= self.list@.subrange(0, i as int).push(
                    self.list@[i as int],
                ));
                self.list@.subrange(0, i as int).lemma_filter_push(self.list@[i as int], p);
            }
            let sub_type = connector_data.payment_method_sub_type;
            if !contains_subtype(routing_enabled, sub_type) {
                assert(p(*connector_data));
                final_list.push(connector_data.clone());
            } else {
                match routing_results.get(sub_type) {
                    Some(choices) => {
                        if choices.len() == 0 {
                            assert(choices@ =~= Seq::<SessionRoutingChoice>::empty());
                            assert(decision_missing(self@[i as int], routing_enabled@, *routing_results));
                            return Err(
                                ApiErrorResponse::InternalServerError(
                                    InternalCause::MissingRoutingDecision,
                                ),
                            );
                        }
                        let routing_choice = &choices[0];
                        let matched = connector_data.connector.connector_name
                            == routing_choice.connector.connector_name && same_account_exec(
                            &connector_data.connector.merchant_connector_id,
                            &routing_choice.connector.merchant_connector_id,
                        );
                        assert(p(*connector_data) == matched);
                        if matched {
                            final_list.push(connector_data.clone());
                        }
                    },
                    None => {
                        assert(!p(*connector_data));
                    },
                }
            }
            i = i + 1;
        }
        assert(self.list@.subrange(0, self.list@.len() as int) =~= self.list@);
        Ok(SessionConnectorDatas { list: final_list })
    }
}

/// Filtering a sequence of candidates twice by the session routing rule gives the
/// same sequence as filtering it once.
pub proof fn lemma_routing_filter_idempotent(
    s: Seq<SessionConnectorData>,
    pmts: Seq<PaymentMethodType>,
    pms: Seq<PaymentMethod>,
)
    ensures
        s.filter(routing_enabled_for(pmts, pms)).filter(routing_enabled_for(pmts, pms)) == s.filter(
            routing_enabled_for(pmts, pms),
        ),
    decreases s.len(),
{
    let p = routing_enabled_for(pmts, pms);
    if s.len() > 0 {
        let front = s.drop_last();
        let x = s.last();
        lemma_routing_filter_idempotent(front, pmts, pms);
        assert(s =~= front.push(x));
        front.lemma_filter_push(x, p);
        if p(x) {
            front.filter(p).lemma_filter_push(x, p);
        }
    } else {
        reveal(Seq::filter);
    }
}

/// Reconciliation keeps a candidate whose subtype routing covers and whose connector
/// and account scope equal the top choice of that subtype's routing result.
pub proof fn lemma_reconcile_keeps_top_choice(
    s: Seq<SessionConnectorData>,
    pmts: Seq<PaymentMethodType>,
    results: RoutingResults,
    i: int,
)
    requires
        0 <= i < s.len(),
        pmts.contains(s[i].payment_method_sub_type),
        results.spec_get(s[i].payment_method_sub_type) matches Some(choices) && choices.len() > 0
            && matches_choice(s[i], choices[0]),
    ensures
        s.filter(kept_by_routing(pmts, results)).contains(s[i]),
{
    broadcast use Seq::lemma_filter_contains;

    assert(kept_by_routing(pmts, results)(s[i]));
}

/// Reconciliation drops a candidate whose subtype routing covers when the subtype has
/// no routing result, or when the candidate differs from the top choice.
pub proof fn lemma_reconcile_drops_other_choice(
    s: Seq<SessionConnectorData>,
    pmts: Seq<PaymentMethodType>,
    results: RoutingResults,
    i: int,
)
    requires
        0 <= i < s.len(),
        pmts.contains(s[i].payment_method_sub_type),
        match results.spec_get(s[i].payment_method_sub_type) {
            Some(choices) => choices.len() > 0 && !matches_choice(s[i], choices[0]),
            None => true,
        },
    ensures
        !s.filter(kept_by_routing(pmts, results)).contains(s[i]),
{
    broadcast use Seq::lemma_filter_contains_rev;

    assert(!kept_by_routing(pmts, results)(s[i]));
}

/// Reconciliation leaves a candidate alone when routing does not cover its subtype.
pub proof fn lemma_reconcile_keeps_unrouted(
    s: Seq<SessionConnectorData>,
    pmts: Seq<PaymentMethodType>,
    results: RoutingResults,
    i: int,
)
    requires
        0 <= i < s.len(),
        !pmts.contains(s[i].payment_method_sub_type),
    ensures
        s.filter(kept_by_routing(pmts, results)).contains(s[i]),
{
    broadcast use Seq::lemma_filter_contains;

    assert(kept_by_routing(pmts, results)(s[i]));
}

} // verus!
