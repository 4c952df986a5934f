//! The catalogue of operations: for each upstream endpoint, its route, the
//! base it is served from, and the parameters it takes.

use vstd::prelude::*;

use crate::text::same_text;

verus! {

/// The most addresses a multi-address operation takes in one call.
pub const ADDRESS_BATCH_LIMIT: usize = 20;

/// The type of value a parameter carries.
#[derive(Clone, Copy, Debug, PartialEq, Eq, Structural)]
pub enum ValueKind {
    Text,
    Integer,
    Boolean,
    TextList,
    IntegerList,
}

/// Which upstream host serves an operation.
#[derive(Clone, Copy, Debug, PartialEq, Eq, Structural)]
pub enum Base {
    /// The keyed "pro" host; calls carry the credential.
    Authenticated,
    /// The public host.
    Public,
}

/// One named parameter of an operation.
#[derive(Clone, Copy, Debug)]
pub struct ParamSpec {
    pub key: &'static str,
    pub kind: ValueKind,
    pub required: bool,
}

/// The shape of one operation.
#[derive(Debug)]
pub struct OperationSpec {
    pub name: &'static str,
    pub upstream_path: &'static str,
    pub base: Base,
    /// The parameters, in declaration order.
    pub parameters: Vec<ParamSpec>,
    /// The most values a list parameter of this operation may hold.
    pub multi_value_limit: Option<usize>,
}

pub struct OperationView {
    pub name: &'static str,
    pub upstream_path: &'static str,
    pub base: Base,
    pub parameters: Seq<ParamSpec>,
    pub multi_value_limit: Option<usize>,
}

impl View for OperationSpec {
    type V = OperationView;

    open spec fn view(&self) -> OperationView {
        OperationView {
            name: self.name,
            upstream_path: self.upstream_path,
            base: self.base,
            parameters: self.parameters@,
            multi_value_limit: self.multi_value_limit,
        }
    }
}

/// No two parameters share a key.
pub open spec fn keys_unique(params: Seq<ParamSpec>) -> bool {
    forall|i: int, j: int|
        0 <= i < params.len() && 0 <= j < params.len() && i != j
            ==> (#[trigger] params[i]).key@ != (#[trigger] params[j]).key@
}

/// Some parameter has key `key`.
pub open spec fn declares_key(params: Seq<ParamSpec>, key: Seq<char>) -> bool {
    exists|i: int| 0 <= i < params.len() && (#[trigger] params[i]).key@ == key
}

impl OperationView {
    /// Parameter keys are unique within an operation.
    pub open spec fn wf(&self) -> bool {
        keys_unique(self.parameters)
    }
}

pub open spec fn required(key: &'static str, kind: ValueKind) -> ParamSpec {
    ParamSpec { key, kind, required: true }
}

pub open spec fn optional(key: &'static str, kind: ValueKind) -> ParamSpec {
    ParamSpec { key, kind, required: false }
}

pub open spec fn operation(
    name: &'static str,
    upstream_path: &'static str,
    base: Base,
    parameters: Seq<ParamSpec>,
    multi_value_limit: Option<usize>,
) -> OperationView {
    OperationView { name, upstream_path, base, parameters, multi_value_limit }
}

pub open spec fn view_of(r: Option<OperationSpec>) -> Option<OperationView> {
    match r {
        Some(o) => Some(o@),
        None => None,
    }
}

fn req(key: &'static str, kind: ValueKind) -> (r: ParamSpec)
    ensures
        r == required(key, kind),
{
    ParamSpec { key, kind, required: true }
}

fn opt(key: &'static str, kind: ValueKind) -> (r: ParamSpec)
    ensures
        r == optional(key, kind),
{
    ParamSpec { key, kind, required: false }
}

/// The registered operation called `name`, if any.
pub open spec fn registered(name: Seq<char>) -> Option<OperationView> {
    if chain_operations(name) is Some {
        chain_operations(name)
    } else if token_operations(name) is Some {
        token_operations(name)
    } else if account_operations(name) is Some {
        account_operations(name)
    } else if transaction_operations(name) is Some {
        transaction_operations(name)
    } else if block_operations(name) is Some {
        block_operations(name)
    } else if market_operations(name) is Some {
        market_operations(name)
    } else {
        nft_operations(name)
    }
}

/// Looks up the operation registered under `name`.
pub fn lookup(name: &str) -> (r: Option<OperationSpec>)
    ensures
        view_of(r) == registered(name@),
        r matches Some(op) ==> op@.wf(),
{
    proof {
        lemma_registered_wf(name@);
    }
    let r = chain_operation(name);
    if r.is_some() {
        return r;
    }
    let r = token_operation(name);
    if r.is_some() {
        return r;
    }
    let r = account_operation(name);
    if r.is_some() {
        return r;
    }
    let r = transaction_operation(name);
    if r.is_some() {
        return r;
    }
    let r = block_operation(name);
    if r.is_some() {
        return r;
    }
    let r = market_operation(name);
    if r.is_some() {
        return r;
    }
    nft_operation(name)
}


pub open spec fn chain_operations(name: Seq<char>) -> Option<OperationView> {
    if name == "chain_info"@ {
        Some(operation(
            "chain_info",
            "/chaininfo",
            Base::Public,
            seq![],
            None,
        ))
    } else {
        None
    }
}

fn chain_operation(name: &str) -> (r: Option<OperationSpec>)
    ensures
        view_of(r) == chain_operations(name@),
{
    if same_text(name, "chain_info") {
        let parameters = vec![];
        assert(parameters@ =~= seq![]);
        Some(OperationSpec {
            name: "chain_info",
            upstream_path: "/chaininfo",
            base: Base::Public,
            parameters,
            multi_value_limit: None,
        })
    } else {
        None
    }
}

pub open spec fn token_operations(name: Seq<char>) -> Option<OperationView> {
    if name == "token_meta"@ {
        Some(operation(
            "token_meta",
            "/token/meta",
            Base::Authenticated,
            seq![
                required("token_address", ValueKind::Text),
            ],
            None,
        ))
    } else if name == "token_meta_multi"@ {
        Some(operation(
            "token_meta_multi",
            "/token/meta/multi",
            Base::Authenticated,
            seq![
                required("address", ValueKind::TextList),
            ],
            Some(ADDRESS_BATCH_LIMIT),
        ))
    } else if name == "token_markets"@ {
        Some(operation(
            "token_markets",
            "/token/markets",
            Base::Authenticated,
            seq![
                required("token_address", ValueKind::Text),
                optional("sort_by", ValueKind::Text),
                optional("program", ValueKind::TextList),
                optional("page", ValueKind::Integer),
                optional("page_size", ValueKind::Integer),
            ],
            None,
        ))
    } else if name == "token_holders"@ {
        Some(operation(
            "token_holders",
            "/token/holders",
            Base::Authenticated,
            seq![
                required("token_address", ValueKind::Text),
                optional("page", ValueKind::Integer),
                optional("page_size", ValueKind::Integer),
                optional("from_amount", ValueKind::Text),
                optional("to_amount", ValueKind::Text),
            ],
            None,
        ))
    } else if name == "token_list"@ {
        Some(operation(
            "token_list",
            "/token/list",
            Base::Authenticated,
            seq![
                optional("sort_by", ValueKind::Text),
                optional("sort_order", ValueKind::Text),
                optional("page", ValueKind::Integer),
                optional("page_size", ValueKind::Integer),
            ],
            None,
        ))
    } else if name == "token_top"@ {
        Some(operation(
            "token_top",
            "/token/top",
            Base::Authenticated,
            seq![],
            None,
        ))
    } else if name == "token_trending"@ {
        Some(operation(
            "token_trending",
            "/token/trending",
            Base::Authenticated,
            seq![
                optional("limit", ValueKind::Integer),
            ],
            None,
        ))
    } else if name == "token_price"@ {
        Some(operation(
            "token_price",
            "/token/price",
            Base::Authenticated,
            seq![
                required("token_address", ValueKind::Text),
                optional("from_time", ValueKind::Integer),
                optional("to_time", ValueKind::Integer),
            ],
            None,
        ))
    } else if name == "token_price_multi"@ {
        Some(operation(
            "token_price_multi",
            "/token/price/multi",
            Base::Authenticated,
            seq![
                required("address", ValueKind::TextList),
                optional("from_time", ValueKind::Integer),
                optional("to_time", ValueKind::Integer),
            ],
            Some(ADDRESS_BATCH_LIMIT),
        ))
    } else if name == "token_transfer"@ {
        Some(operation(
            "token_transfer",
            "/token/transfer",
            Base::Authenticated,
            seq![
                required("address", ValueKind::Text),
                optional("activity_type", ValueKind::TextList),
                optional("from", ValueKind::Text),
                optional("to", ValueKind::Text),
                optional("amount", ValueKind::TextList),
                optional("block_time", ValueKind::IntegerList),
                optional("exclude_amount_zero", ValueKind::Boolean),
                optional("page", ValueKind::Integer),
                optional("page_size", ValueKind::Integer),
                optional("sort_by", ValueKind::Text),
                optional("sort_order", ValueKind::Text),
                optional("value", ValueKind::TextList),
            ],
            None,
        ))
    } else if name == "token_defi_activities"@ {
        Some(operation(
            "token_defi_activities",
            "/token/defi/activities",
            Base::Authenticated,
            seq![
                required("address", ValueKind::Text),
                optional("from", ValueKind::Text),
                optional("platform", ValueKind::TextList),
                optional("source", ValueKind::TextList),
                optional("activity_type", ValueKind::TextList),
                optional("token", ValueKind::Text),
                optional("from_time", ValueKind::Integer),
                optional("to_time", ValueKind::Integer),
                optional("page", ValueKind::Integer),
                optional("page_size", ValueKind::Integer),
                optional("sort_by", ValueKind::Text),
                optional("sort_order", ValueKind::Text),
            ],
            None,
        ))
    } else {
        None
    }
}

fn token_operation(name: &str) -> (r: Option<OperationSpec>)
    ensures
        view_of(r) == token_operations(name@),
{
    if same_text(name, "token_meta") {
        let parameters = vec![
            req("token_address", ValueKind::Text),
        ];
        assert(parameters@ =~= seq![
            required("token_address", ValueKind::Text),
        ]);
        Some(OperationSpec {
            name: "token_meta",
            upstream_path: "/token/meta",
            base: Base::Authenticated,
            parameters,
            multi_value_limit: None,
        })
    } else if same_text(name, "token_meta_multi") {
        let parameters = vec![
            req("address", ValueKind::TextList),
        ];
        assert(parameters@ =~= seq![
            required("address", ValueKind::TextList),
        ]);
        Some(OperationSpec {
            name: "token_meta_multi",
            upstream_path: "/token/meta/multi",
            base: Base::Authenticated,
            parameters,
            multi_value_limit: Some(ADDRESS_BATCH_LIMIT),
        })
    } else if same_text(name, "token_markets") {
        let parameters = vec![
            req("token_address", ValueKind::Text),
            opt("sort_by", ValueKind::Text),
            opt("program", ValueKind::TextList),
            opt("page", ValueKind::Integer),
            opt("page_size", ValueKind::Integer),
        ];
        assert(parameters@ =~= seq![
            required("token_address", ValueKind::Text),
            optional("sort_by", ValueKind::Text),
            optional("program", ValueKind::TextList),
            optional("page", ValueKind::Integer),
            optional("page_size", ValueKind::Integer),
        ]);
        Some(OperationSpec {
            name: "token_markets",
            upstream_path: "/token/markets",
            base: Base::Authenticated,
            parameters,
            multi_value_limit: None,
        })
    } else if same_text(name, "token_holders") {
        let parameters = vec![
            req("token_address", ValueKind::Text),
            opt("page", ValueKind::Integer),
            opt("page_size", ValueKind::Integer),
            opt("from_amount", ValueKind::Text),
            opt("to_amount", ValueKind::Text),
        ];
        assert(parameters@ =~= seq![
            required("token_address", ValueKind::Text),
            optional("page", ValueKind::Integer),
            optional("page_size", ValueKind::Integer),
            optional("from_amount", ValueKind::Text),
            optional("to_amount", ValueKind::Text),
        ]);
        Some(OperationSpec {
            name: "token_holders",
            upstream_path: "/token/holders",
            base: Base::Authenticated,
            parameters,
            multi_value_limit: None,
        })
    } else if same_text(name, "token_list") {
        let parameters = vec![
            opt("sort_by", ValueKind::Text),
            opt("sort_order", ValueKind::Text),
            opt("page", ValueKind::Integer),
            opt("page_size", ValueKind::Integer),
        ];
        assert(parameters@ =~= seq![
            optional("sort_by", ValueKind::Text),
            optional("sort_order", ValueKind::Text),
            optional("page", ValueKind::Integer),
            optional("page_size", ValueKind::Integer),
        ]);
        Some(OperationSpec {
            name: "token_list",
            upstream_path: "/token/list",
            base: Base::Authenticated,
            parameters,
            multi_value_limit: None,
        })
    } else if same_text(name, "token_top") {
        let parameters = vec![];
        assert(parameters@ =~= seq![]);
        Some(OperationSpec {
            name: "token_top",
            upstream_path: "/token/top",
            base: Base::Authenticated,
            parameters,
            multi_value_limit: None,
        })
    } else if same_text(name, "token_trending") {
        let parameters = vec![
            opt("limit", ValueKind::Integer),
        ];
        assert(parameters@ =~= seq![
            optional("limit", ValueKind::Integer),
        ]);
        Some(OperationSpec {
            name: "token_trending",
            upstream_path: "/token/trending",
            base: Base::Authenticated,
            parameters,
            multi_value_limit: None,
        })
    } else if same_text(name, "token_price") {
        let parameters = vec![
            req("token_address", ValueKind::Text),
            opt("from_time", ValueKind::Integer),
            opt("to_time", ValueKind::Integer),
        ];
        assert(parameters@ =~= seq![
            required("token_address", ValueKind::Text),
            optional("from_time", ValueKind::Integer),
            optional("to_time", ValueKind::Integer),
        ]);
        Some(OperationSpec {
            name: "token_price",
            upstream_path: "/token/price",
            base: Base::Authenticated,
            parameters,
            multi_value_limit: None,
        })
    } else if same_text(name, "token_price_multi") {
        let parameters = vec![
            req("address", ValueKind::TextList),
            opt("from_time", ValueKind::Integer),
            opt("to_time", ValueKind::Integer),
        ];
        assert(parameters@ =~= seq![
            required("address", ValueKind::TextList),
            optional("from_time", ValueKind::Integer),
            optional("to_time", ValueKind::Integer),
        ]);
        Some(OperationSpec {
            name: "token_price_multi",
            upstream_path: "/token/price/multi",
            base: Base::Authenticated,
            parameters,
            multi_value_limit: Some(ADDRESS_BATCH_LIMIT),
        })
    } else if same_text(name, "token_transfer") {
        let parameters = vec![
            req("address", ValueKind::Text),
            opt("activity_type", ValueKind::TextList),
            opt("from", ValueKind::Text),
            opt("to", ValueKind::Text),
            opt("amount", ValueKind::TextList),
            opt("block_time", ValueKind::IntegerList),
            opt("exclude_amount_zero", ValueKind::Boolean),
            opt("page", ValueKind::Integer),
            opt("page_size", ValueKind::Integer),
            opt("sort_by", ValueKind::Text),
            opt("sort_order", ValueKind::Text),
            opt("value", ValueKind::TextList),
        ];
        assert(parameters@ =~= seq![
            required("address", ValueKind::Text),
            optional("activity_type", ValueKind::TextList),
            optional("from", ValueKind::Text),
            optional("to", ValueKind::Text),
            optional("amount", ValueKind::TextList),
            optional("block_time", ValueKind::IntegerList),
            optional("exclude_amount_zero", ValueKind::Boolean),
            optional("page", ValueKind::Integer),
            optional("page_size", ValueKind::Integer),
            optional("sort_by", ValueKind::Text),
            optional("sort_order", ValueKind::Text),
            optional("value", ValueKind::TextList),
        ]);
        Some(OperationSpec {
            name: "token_transfer",
            upstream_path: "/token/transfer",
            base: Base::Authenticated,
            parameters,
            multi_value_limit: None,
        })
    } else if same_text(name, "token_defi_activities") {
        let parameters = vec![
            req("address", ValueKind::Text),
            opt("from", ValueKind::Text),
            opt("platform", ValueKind::TextList),
            opt("source", ValueKind::TextList),
            opt("activity_type", ValueKind::TextList),
            opt("token", ValueKind::Text),
            opt("from_time", ValueKind::Integer),
            opt("to_time", ValueKind::Integer),
            opt("page", ValueKind::Integer),
            opt("page_size", ValueKind::Integer),
            opt("sort_by", ValueKind::Text),
            opt("sort_order", ValueKind::Text),
        ];
        assert(parameters@ =~= seq![
            required("address", ValueKind::Text),
            optional("from", ValueKind::Text),
            optional("platform", ValueKind::TextList),
            optional("source", ValueKind::TextList),
            optional("activity_type", ValueKind::TextList),
            optional("token", ValueKind::Text),
            optional("from_time", ValueKind::Integer),
            optional("to_time", ValueKind::Integer),
            optional("page", ValueKind::Integer),
            optional("page_size", ValueKind::Integer),
            optional("sort_by", ValueKind::Text),
            optional("sort_order", ValueKind::Text),
        ]);
        Some(OperationSpec {
            name: "token_defi_activities",
            upstream_path: "/token/defi/activities",
            base: Base::Authenticated,
            parameters,
            multi_value_limit: None,
        })
    } else {
        None
    }
}

pub open spec fn account_operations(name: Seq<char>) -> Option<OperationView> {
    if name == "account_detail"@ {
        Some(operation(
            "account_detail",
            "/account/detail",
            Base::Authenticated,
            seq![
                required("address", ValueKind::Text),
            ],
            None,
        ))
    } else if name == "account_transfer"@ {
        Some(operation(
            "account_transfer",
            "/account/transfer",
            Base::Authenticated,
            seq![
                required("address", ValueKind::Text),
                optional("activity_type", ValueKind::TextList),
                optional("token_account", ValueKind::Text),
                optional("from", ValueKind::Text),
                optional("to", ValueKind::Text),
                optional("token", ValueKind::Text),
                optional("amount", ValueKind::TextList),
                optional("from_time", ValueKind::Integer),
                optional("to_time", ValueKind::Integer),
                optional("exclude_amount_zero", ValueKind::Boolean),
                optional("flow", ValueKind::Text),
                optional("page", ValueKind::Integer),
                optional("page_size", ValueKind::Integer),
                optional("sort_by", ValueKind::Text),
                optional("sort_order", ValueKind::Text),
                optional("value", ValueKind::TextList),
            ],
            None,
        ))
    } else if name == "balance_change"@ {
        Some(operation(
            "balance_change",
            "/account/balance_change",
            Base::Authenticated,
            seq![
                required("address", ValueKind::Text),
                optional("token_account", ValueKind::Text),
                optional("token", ValueKind::Text),
                optional("from_time", ValueKind::Integer),
                optional("to_time", ValueKind::Integer),
                optional("page", ValueKind::Integer),
                optional("page_size", ValueKind::Integer),
                optional("remove_spam", ValueKind::Text),
                optional("amount", ValueKind::TextList),
                optional("flow", ValueKind::Text),
                optional("sort_by", ValueKind::Text),
                optional("sort_order", ValueKind::Text),
                optional("before_tx", ValueKind::Text),
            ],
            None,
        ))
    } else if name == "account_defi_activities"@ {
        Some(operation(
            "account_defi_activities",
            "/account/defi/activities",
            Base::Authenticated,
            seq![
                required("address", ValueKind::Text),
                optional("activity_type", ValueKind::TextList),
                optional("from", ValueKind::Text),
                optional("platform", ValueKind::TextList),
                optional("source", ValueKind::TextList),
                optional("token", ValueKind::Text),
                optional("from_time", ValueKind::Integer),
                optional("to_time", ValueKind::Integer),
                optional("page", ValueKind::Integer),
                optional("page_size", ValueKind::Integer),
                optional("sort_by", ValueKind::Text),
                optional("sort_order", ValueKind::Text),
            ],
            None,
        ))
    } else if name == "account_transactions"@ {
        Some(operation(
            "account_transactions",
            "/account/transactions",
            Base::Authenticated,
            seq![
                required("address", ValueKind::Text),
                optional("before", ValueKind::Text),
                optional("limit", ValueKind::Integer),
            ],
            None,
        ))
    } else if name == "account_portfolio"@ {
        Some(operation(
            "account_portfolio",
            "/account/portfolio",
            Base::Authenticated,
            seq![
                required("address", ValueKind::Text),
            ],
            None,
        ))
    } else if name == "account_token_accounts"@ {
        Some(operation(
            "account_token_accounts",
            "/account/token-accounts",
            Base::Authenticated,
            seq![
                required("address", ValueKind::Text),
                required("type", ValueKind::Text),
                optional("page", ValueKind::Integer),
                optional("page_size", ValueKind::Integer),
                optional("hide_zero", ValueKind::Boolean),
            ],
            None,
        ))
    } else if name == "account_stake"@ {
        Some(operation(
            "account_stake",
            "/account/stake",
            Base::Authenticated,
            seq![
                required("address", ValueKind::Text),
                optional("page", ValueKind::Integer),
                optional("page_size", ValueKind::Integer),
            ],
            None,
        ))
    } else if name == "account_reward_export"@ {
        Some(operation(
            "account_reward_export",
            "/account/reward/export",
            Base::Authenticated,
            seq![
                required("address", ValueKind::Text),
                optional("time_from", ValueKind::Integer),
                optional("time_to", ValueKind::Integer),
            ],
            None,
        ))
    } else if name == "account_transfer_export"@ {
        Some(operation(
            "account_transfer_export",
            "/account/transfer/export",
            Base::Authenticated,
            seq![
                required("address", ValueKind::Text),
                optional("activity_type", ValueKind::TextList),
                optional("token_account", ValueKind::Text),
                optional("from", ValueKind::Text),
                optional("to", ValueKind::Text),
                optional("token", ValueKind::Text),
                optional("amount", ValueKind::TextList),
                optional("from_time", ValueKind::Integer),
                optional("to_time", ValueKind::Integer),
                optional("exclude_amount_zero", ValueKind::Boolean),
                optional("flow", ValueKind::Text),
            ],
            None,
        ))
    } else if name == "account_metadata"@ {
        Some(operation(
            "account_metadata",
            "/account/metadata",
            Base::Authenticated,
            seq![
                required("address", ValueKind::Text),
            ],
            None,
        ))
    } else {
        None
    }
}

fn account_operation(name: &str) -> (r: Option<OperationSpec>)
    ensures
        view_of(r) == account_operations(name@),
{
    if same_text(name, "account_detail") {
        let parameters = vec![
            req("address", ValueKind::Text),
        ];
        assert(parameters@ =~= seq![
            required("address", ValueKind::Text),
        ]);
        Some(OperationSpec {
            name: "account_detail",
            upstream_path: "/account/detail",
            base: Base::Authenticated,
            parameters,
            multi_value_limit: None,
        })
    } else if same_text(name, "account_transfer") {
        let parameters = vec![
            req("address", ValueKind::Text),
            opt("activity_type", ValueKind::TextList),
            opt("token_account", ValueKind::Text),
            opt("from", ValueKind::Text),
            opt("to", ValueKind::Text),
            opt("token", ValueKind::Text),
            opt("amount", ValueKind::TextList),
            opt("from_time", ValueKind::Integer),
            opt("to_time", ValueKind::Integer),
            opt("exclude_amount_zero", ValueKind::Boolean),
            opt("flow", ValueKind::Text),
            opt("page", ValueKind::Integer),
            opt("page_size", ValueKind::Integer),
            opt("sort_by", ValueKind::Text),
            opt("sort_order", ValueKind::Text),
            opt("value", ValueKind::TextList),
        ];
        assert(parameters@ =~= seq![
            required("address", ValueKind::Text),
            optional("activity_type", ValueKind::TextList),
            optional("token_account", ValueKind::Text),
            optional("from", ValueKind::Text),
            optional("to", ValueKind::Text),
            optional("token", ValueKind::Text),
            optional("amount", ValueKind::TextList),
            optional("from_time", ValueKind::Integer),
            optional("to_time", ValueKind::Integer),
            optional("exclude_amount_zero", ValueKind::Boolean),
            optional("flow", ValueKind::Text),
            optional("page", ValueKind::Integer),
            optional("page_size", ValueKind::Integer),
            optional("sort_by", ValueKind::Text),
            optional("sort_order", ValueKind::Text),
            optional("value", ValueKind::TextList),
        ]);
        Some(OperationSpec {
            name: "account_transfer",
            upstream_path: "/account/transfer",
            base: Base::Authenticated,
            parameters,
            multi_value_limit: None,
        })
    } else if same_text(name, "balance_change") {
        let parameters = vec![
            req("address", ValueKind::Text),
            opt("token_account", ValueKind::Text),
            opt("token", ValueKind::Text),
            opt("from_time", ValueKind::Integer),
            opt("to_time", ValueKind::Integer),
            opt("page", ValueKind::Integer),
            opt("page_size", ValueKind::Integer),
            opt("remove_spam", ValueKind::Text),
            opt("amount", ValueKind::TextList),
            opt("flow", ValueKind::Text),
            opt("sort_by", ValueKind::Text),
            opt("sort_order", ValueKind::Text),
            opt("before_tx", ValueKind::Text),
        ];
        assert(parameters@ =~= seq![
            required("address", ValueKind::Text),
            optional("token_account", ValueKind::Text),
            optional("token", ValueKind::Text),
            optional("from_time", ValueKind::Integer),
            optional("to_time", ValueKind::Integer),
            optional("page", ValueKind::Integer),
            optional("page_size", ValueKind::Integer),
            optional("remove_spam", ValueKind::Text),
            optional("amount", ValueKind::TextList),
            optional("flow", ValueKind::Text),
            optional("sort_by", ValueKind::Text),
            optional("sort_order", ValueKind::Text),
            optional("before_tx", ValueKind::Text),
        ]);
        Some(OperationSpec {
            name: "balance_change",
            upstream_path: "/account/balance_change",
            base: Base::Authenticated,
            parameters,
            multi_value_limit: None,
        })
    } else if same_text(name, "account_defi_activities") {
        let parameters = vec![
            req("address", ValueKind::Text),
            opt("activity_type", ValueKind::TextList),
            opt("from", ValueKind::Text),
            opt("platform", ValueKind::TextList),
            opt("source", ValueKind::TextList),
            opt("token", ValueKind::Text),
            opt("from_time", ValueKind::Integer),
            opt("to_time", ValueKind::Integer),
            opt("page", ValueKind::Integer),
            opt("page_size", ValueKind::Integer),
            opt("sort_by", ValueKind::Text),
            opt("sort_order", ValueKind::Text),
        ];
        assert(parameters@ =~= seq![
            required("address", ValueKind::Text),
            optional("activity_type", ValueKind::TextList),
            optional("from", ValueKind::Text),
            optional("platform", ValueKind::TextList),
            optional("source", ValueKind::TextList),
            optional("token", ValueKind::Text),
            optional("from_time", ValueKind::Integer),
            optional("to_time", ValueKind::Integer),
            optional("page", ValueKind::Integer),
            optional("page_size", ValueKind::Integer),
            optional("sort_by", ValueKind::Text),
            optional("sort_order", ValueKind::Text),
        ]);
        Some(OperationSpec {
            name: "account_defi_activities",
            upstream_path: "/account/defi/activities",
            base: Base::Authenticated,
            parameters,
            multi_value_limit: None,
        })
    } else if same_text(name, "account_transactions") {
        let parameters = vec![
            req("address", ValueKind::Text),
            opt("before", ValueKind::Text),
            opt("limit", ValueKind::Integer),
        ];
        assert(parameters@ =~= seq![
            required("address", ValueKind::Text),
            optional("before", ValueKind::Text),
            optional("limit", ValueKind::Integer),
        ]);
        Some(OperationSpec {
            name: "account_transactions",
            upstream_path: "/account/transactions",
            base: Base::Authenticated,
            parameters,
            multi_value_limit: None,
        })
    } else if same_text(name, "account_portfolio") {
        let parameters = vec![
            req("address", ValueKind::Text),
        ];
        assert(parameters@ =~= seq![
            required("address", ValueKind::Text),
        ]);
        Some(OperationSpec {
            name: "account_portfolio",
            upstream_path: "/account/portfolio",
            base: Base::Authenticated,
            parameters,
            multi_value_limit: None,
        })
    } else if same_text(name, "account_token_accounts") {
        let parameters = vec![
            req("address", ValueKind::Text),
            req("type", ValueKind::Text),
            opt("page", ValueKind::Integer),
            opt("page_size", ValueKind::Integer),
            opt("hide_zero", ValueKind::Boolean),
        ];
        assert(parameters@ =~= seq![
            required("address", ValueKind::Text),
            required("type", ValueKind::Text),
            optional("page", ValueKind::Integer),
            optional("page_size", ValueKind::Integer),
            optional("hide_zero", ValueKind::Boolean),
        ]);
        Some(OperationSpec {
            name: "account_token_accounts",
            upstream_path: "/account/token-accounts",
            base: Base::Authenticated,
            parameters,
            multi_value_limit: None,
        })
    } else if same_text(name, "account_stake") {
        let parameters = vec![
            req("address", ValueKind::Text),
            opt("page", ValueKind::Integer),
            opt("page_size", ValueKind::Integer),
        ];
        assert(parameters@ =~= seq![
            required("address", ValueKind::Text),
            optional("page", ValueKind::Integer),
            optional("page_size", ValueKind::Integer),
        ]);
        Some(OperationSpec {
            name: "account_stake",
            upstream_path: "/account/stake",
            base: Base::Authenticated,
            parameters,
            multi_value_limit: None,
        })
    } else if same_text(name, "account_reward_export") {
        let parameters = vec![
            req("address", ValueKind::Text),
            opt("time_from", ValueKind::Integer),
            opt("time_to", ValueKind::Integer),
        ];
        assert(parameters@ =~= seq![
            required("address", ValueKind::Text),
            optional("time_from", ValueKind::Integer),
            optional("time_to", ValueKind::Integer),
        ]);
        Some(OperationSpec {
            name: "account_reward_export",
            upstream_path: "/account/reward/export",
            base: Base::Authenticated,
            parameters,
            multi_value_limit: None,
        })
    } else if same_text(name, "account_transfer_export") {
        let parameters = vec![
            req("address", ValueKind::Text),
            opt("activity_type", ValueKind::TextList),
            opt("token_account", ValueKind::Text),
            opt("from", ValueKind::Text),
            opt("to", ValueKind::Text),
            opt("token", ValueKind::Text),
            opt("amount", ValueKind::TextList),
            opt("from_time", ValueKind::Integer),
            opt("to_time", ValueKind::Integer),
            opt("exclude_amount_zero", ValueKind::Boolean),
            opt("flow", ValueKind::Text),
        ];
        assert(parameters@ =~= seq![
            required("address", ValueKind::Text),
            optional("activity_type", ValueKind::TextList),
            optional("token_account", ValueKind::Text),
            optional("from", ValueKind::Text),
            optional("to", ValueKind::Text),
            optional("token", ValueKind::Text),
            optional("amount", ValueKind::TextList),
            optional("from_time", ValueKind::Integer),
            optional("to_time", ValueKind::Integer),
            optional("exclude_amount_zero", ValueKind::Boolean),
            optional("flow", ValueKind::Text),
        ]);
        Some(OperationSpec {
            name: "account_transfer_export",
            upstream_path: "/account/transfer/export",
            base: Base::Authenticated,
            parameters,
            multi_value_limit: None,
        })
    } else if same_text(name, "account_metadata") {
        let parameters = vec![
            req("address", ValueKind::Text),
        ];
        assert(parameters@ =~= seq![
            required("address", ValueKind::Text),
        ]);
        Some(OperationSpec {
            name: "account_metadata",
            upstream_path: "/account/metadata",
            base: Base::Authenticated,
            parameters,
            multi_value_limit: None,
        })
    } else {
        None
    }
}

pub open spec fn transaction_operations(name: Seq<char>) -> Option<OperationView> {
    if name == "transaction_detail"@ {
        Some(operation(
            "transaction_detail",
            "/transaction/detail",
            Base::Authenticated,
            seq![
                required("tx", ValueKind::Text),
            ],
            None,
        ))
    } else if name == "transaction_last"@ {
        Some(operation(
            "transaction_last",
            "/transaction/last",
            Base::Authenticated,
            seq![
                optional("limit", ValueKind::Integer),
                optional("filter", ValueKind::Text),
            ],
            None,
        ))
    } else if name == "transaction_actions"@ {
        Some(operation(
            "transaction_actions",
            "/transaction/actions",
            Base::Authenticated,
            seq![
                required("tx", ValueKind::Text),
            ],
            None,
        ))
    } else {
        None
    }
}

fn transaction_operation(name: &str) -> (r: Option<OperationSpec>)
    ensures
        view_of(r) == transaction_operations(name@),
{
    if same_text(name, "transaction_detail") {
        let parameters = vec![
            req("tx", ValueKind::Text),
        ];
        assert(parameters@ =~= seq![
            required("tx", ValueKind::Text),
        ]);
        Some(OperationSpec {
            name: "transaction_detail",
            upstream_path: "/transaction/detail",
            base: Base::Authenticated,
            parameters,
            multi_value_limit: None,
        })
    } else if same_text(name, "transaction_last") {
        let parameters = vec![
            opt("limit", ValueKind::Integer),
            opt("filter", ValueKind::Text),
        ];
        assert(parameters@ =~= seq![
            optional("limit", ValueKind::Integer),
            optional("filter", ValueKind::Text),
        ]);
        Some(OperationSpec {
            name: "transaction_last",
            upstream_path: "/transaction/last",
            base: Base::Authenticated,
            parameters,
            multi_value_limit: None,
        })
    } else if same_text(name, "transaction_actions") {
        let parameters = vec![
            req("tx", ValueKind::Text),
        ];
        assert(parameters@ =~= seq![
            required("tx", ValueKind::Text),
        ]);
        Some(OperationSpec {
            name: "transaction_actions",
            upstream_path: "/transaction/actions",
            base: Base::Authenticated,
            parameters,
            multi_value_limit: None,
        })
    } else {
        None
    }
}

pub open spec fn block_operations(name: Seq<char>) -> Option<OperationView> {
    if name == "block_last"@ {
        Some(operation(
            "block_last",
            "/block/last",
            Base::Authenticated,
            seq![
                optional("limit", ValueKind::Integer),
            ],
            None,
        ))
    } else if name == "block_transactions"@ {
        Some(operation(
            "block_transactions",
            "/block/transactions",
            Base::Authenticated,
            seq![
                required("block", ValueKind::Integer),
                optional("page", ValueKind::Integer),
                optional("page_size", ValueKind::Integer),
                optional("exclude_vote", ValueKind::Boolean),
                optional("program", ValueKind::Text),
            ],
            None,
        ))
    } else if name == "block_detail"@ {
        Some(operation(
            "block_detail",
            "/block/detail",
            Base::Authenticated,
            seq![
                required("block", ValueKind::Integer),
            ],
            None,
        ))
    } else {
        None
    }
}

fn block_operation(name: &str) -> (r: Option<OperationSpec>)
    ensures
        view_of(r) == block_operations(name@),
{
    if same_text(name, "block_last") {
        let parameters = vec![
            opt("limit", ValueKind::Integer),
        ];
        assert(parameters@ =~= seq![
            optional("limit", ValueKind::Integer),
        ]);
        Some(OperationSpec {
            name: "block_last",
            upstream_path: "/block/last",
            base: Base::Authenticated,
            parameters,
            multi_value_limit: None,
        })
    } else if same_text(name, "block_transactions") {
        let parameters = vec![
            req("block", ValueKind::Integer),
            opt("page", ValueKind::Integer),
            opt("page_size", ValueKind::Integer),
            opt("exclude_vote", ValueKind::Boolean),
            opt("program", ValueKind::Text),
        ];
        assert(parameters@ =~= seq![
            required("block", ValueKind::Integer),
            optional("page", ValueKind::Integer),
            optional("page_size", ValueKind::Integer),
            optional("exclude_vote", ValueKind::Boolean),
            optional("program", ValueKind::Text),
        ]);
        Some(OperationSpec {
            name: "block_transactions",
            upstream_path: "/block/transactions",
            base: Base::Authenticated,
            parameters,
            multi_value_limit: None,
        })
    } else if same_text(name, "block_detail") {
        let parameters = vec![
            req("block", ValueKind::Integer),
        ];
        assert(parameters@ =~= seq![
            required("block", ValueKind::Integer),
        ]);
        Some(OperationSpec {
            name: "block_detail",
            upstream_path: "/block/detail",
            base: Base::Authenticated,
            parameters,
            multi_value_limit: None,
        })
    } else {
        None
    }
}

pub open spec fn market_operations(name: Seq<char>) -> Option<OperationView> {
    if name == "market_list"@ {
        Some(operation(
            "market_list",
            "/market/list",
            Base::Authenticated,
            seq![
                optional("page", ValueKind::Integer),
                optional("page_size", ValueKind::Integer),
                optional("program", ValueKind::Text),
            ],
            None,
        ))
    } else if name == "market_info"@ {
        Some(operation(
            "market_info",
            "/market/info",
            Base::Authenticated,
            seq![
                required("address", ValueKind::Text),
            ],
            None,
        ))
    } else if name == "market_volume"@ {
        Some(operation(
            "market_volume",
            "/market/volume",
            Base::Authenticated,
            seq![
                required("address", ValueKind::Text),
                optional("time", ValueKind::TextList),
            ],
            None,
        ))
    } else {
        None
    }
}

fn market_operation(name: &str) -> (r: Option<OperationSpec>)
    ensures
        view_of(r) == market_operations(name@),
{
    if same_text(name, "market_list") {
        let parameters = vec![
            opt("page", ValueKind::Integer),
            opt("page_size", ValueKind::Integer),
            opt("program", ValueKind::Text),
        ];
        assert(parameters@ =~= seq![
            optional("page", ValueKind::Integer),
            optional("page_size", ValueKind::Integer),
            optional("program", ValueKind::Text),
        ]);
        Some(OperationSpec {
            name: "market_list",
            upstream_path: "/market/list",
            base: Base::Authenticated,
            parameters,
            multi_value_limit: None,
        })
    } else if same_text(name, "market_info") {
        let parameters = vec![
            req("address", ValueKind::Text),
        ];
        assert(parameters@ =~= seq![
            required("address", ValueKind::Text),
        ]);
        Some(OperationSpec {
            name: "market_info",
            upstream_path: "/market/info",
            base: Base::Authenticated,
            parameters,
            multi_value_limit: None,
        })
    } else if same_text(name, "market_volume") {
        let parameters = vec![
            req("address", ValueKind::Text),
            opt("time", ValueKind::TextList),
        ];
        assert(parameters@ =~= seq![
            required("address", ValueKind::Text),
            optional("time", ValueKind::TextList),
        ]);
        Some(OperationSpec {
            name: "market_volume",
            upstream_path: "/market/volume",
            base: Base::Authenticated,
            parameters,
            multi_value_limit: None,
        })
    } else {
        None
    }
}

pub open spec fn nft_operations(name: Seq<char>) -> Option<OperationView> {
    if name == "nft_news"@ {
        Some(operation(
            "nft_news",
            "/nft/news",
            Base::Authenticated,
            seq![
                required("filter", ValueKind::Text),
                optional("page", ValueKind::Integer),
                optional("page_size", ValueKind::Integer),
            ],
            None,
        ))
    } else if name == "nft_activities"@ {
        Some(operation(
            "nft_activities",
            "/nft/activities",
            Base::Authenticated,
            seq![
                optional("from", ValueKind::Text),
                optional("to", ValueKind::Text),
                optional("source", ValueKind::TextList),
                optional("activity_type", ValueKind::TextList),
                optional("from_time", ValueKind::Integer),
                optional("to_time", ValueKind::Integer),
                optional("token", ValueKind::Text),
                optional("collection", ValueKind::Text),
                optional("currency_token", ValueKind::Text),
                optional("price", ValueKind::TextList),
                optional("page", ValueKind::Integer),
                optional("page_size", ValueKind::Integer),
            ],
            None,
        ))
    } else if name == "nft_collection_lists"@ {
        Some(operation(
            "nft_collection_lists",
            "/nft/collection/lists",
            Base::Authenticated,
            seq![
                optional("range", ValueKind::Integer),
                optional("sort_order", ValueKind::Text),
                optional("sort_by", ValueKind::Text),
                optional("page", ValueKind::Integer),
                optional("page_size", ValueKind::Integer),
                optional("collection", ValueKind::Text),
            ],
            None,
        ))
    } else if name == "nft_collection_items"@ {
        Some(operation(
            "nft_collection_items",
            "/nft/collection/items",
            Base::Authenticated,
            seq![
                required("collection", ValueKind::Text),
                optional("sort_by", ValueKind::Text),
                optional("page", ValueKind::Integer),
                optional("page_size", ValueKind::Integer),
            ],
            None,
        ))
    } else {
        None
    }
}

fn nft_operation(name: &str) -> (r: Option<OperationSpec>)
    ensures
        view_of(r) == nft_operations(name@),
{
    if same_text(name, "nft_news") {
        let parameters = vec![
            req("filter", ValueKind::Text),
            opt("page", ValueKind::Integer),
            opt("page_size", ValueKind::Integer),
        ];
        assert(parameters@ =~= seq![
            required("filter", ValueKind::Text),
            optional("page", ValueKind::Integer),
            optional("page_size", ValueKind::Integer),
        ]);
        Some(OperationSpec {
            name: "nft_news",
            upstream_path: "/nft/news",
            base: Base::Authenticated,
            parameters,
            multi_value_limit: None,
        })
    } else if same_text(name, "nft_activities") {
        let parameters = vec![
            opt("from", ValueKind::Text),
            opt("to", ValueKind::Text),
            opt("source", ValueKind::TextList),
            opt("activity_type", ValueKind::TextList),
            opt("from_time", ValueKind::Integer),
            opt("to_time", ValueKind::Integer),
            opt("token", ValueKind::Text),
            opt("collection", ValueKind::Text),
            opt("currency_token", ValueKind::Text),
            opt("price", ValueKind::TextList),
            opt("page", ValueKind::Integer),
            opt("page_size", ValueKind::Integer),
        ];
        assert(parameters@ =~= seq![
            optional("from", ValueKind::Text),
            optional("to", ValueKind::Text),
            optional("source", ValueKind::TextList),
            optional("activity_type", ValueKind::TextList),
            optional("from_time", ValueKind::Integer),
            optional("to_time", ValueKind::Integer),
            optional("token", ValueKind::Text),
            optional("collection", ValueKind::Text),
            optional("currency_token", ValueKind::Text),
            optional("price", ValueKind::TextList),
            optional("page", ValueKind::Integer),
            optional("page_size", ValueKind::Integer),
        ]);
        Some(OperationSpec {
            name: "nft_activities",
            upstream_path: "/nft/activities",
            base: Base::Authenticated,
            parameters,
            multi_value_limit: None,
        })
    } else if same_text(name, "nft_collection_lists") {
        let parameters = vec![
            opt("range", ValueKind::Integer),
            opt("sort_order", ValueKind::Text),
            opt("sort_by", ValueKind::Text),
            opt("page", ValueKind::Integer),
            opt("page_size", ValueKind::Integer),
            opt("collection", ValueKind::Text),
        ];
        assert(parameters@ =~= seq![
            optional("range", ValueKind::Integer),
            optional("sort_order", ValueKind::Text),
            optional("sort_by", ValueKind::Text),
            optional("page", ValueKind::Integer),
            optional("page_size", ValueKind::Integer),
            optional("collection", ValueKind::Text),
        ]);
        Some(OperationSpec {
            name: "nft_collection_lists",
            upstream_path: "/nft/collection/lists",
            base: Base::Authenticated,
            parameters,
            multi_value_limit: None,
        })
    } else if same_text(name, "nft_collection_items") {
        let parameters = vec![
            req("collection", ValueKind::Text),
            opt("sort_by", ValueKind::Text),
            opt("page", ValueKind::Integer),
            opt("page_size", ValueKind::Integer),
        ];
        assert(parameters@ =~= seq![
            required("collection", ValueKind::Text),
            optional("sort_by", ValueKind::Text),
            optional("page", ValueKind::Integer),
            optional("page_size", ValueKind::Integer),
        ]);
        Some(OperationSpec {
            name: "nft_collection_items",
            upstream_path: "/nft/collection/items",
            base: Base::Authenticated,
            parameters,
            multi_value_limit: None,
        })
    } else {
        None
    }
}

proof fn lemma_chain_operations_wf(name: Seq<char>)
    ensures
        chain_operations(name) matches Some(op) ==> op.wf(),
{
}

proof fn lemma_token_markets_keys_unique()
    ensures
        keys_unique(seq![
            required("token_address", ValueKind::Text),
            optional("sort_by", ValueKind::Text),
            optional("program", ValueKind::TextList),
            optional("page", ValueKind::Integer),
            optional("page_size", ValueKind::Integer),
        ]),
{
    reveal_strlit("token_address");
    reveal_strlit("sort_by");
    reveal_strlit("program");
    reveal_strlit("page");
    reveal_strlit("page_size");
    let ps = seq![
        required("token_address", ValueKind::Text),
        optional("sort_by", ValueKind::Text),
        optional("program", ValueKind::TextList),
        optional("page", ValueKind::Integer),
        optional("page_size", ValueKind::Integer),
    ];
    let ks = seq![
        "token_address"@,
        "sort_by"@,
        "program"@,
        "page"@,
        "page_size"@,
    ];
    assert forall|i: int| 0 <= i < ps.len() implies #[trigger] ps[i].key@ == ks[i] by {}
    assert forall|i: int, j: int|
        0 <= i < ks.len() && 0 <= j < ks.len() && i != j implies ks[i] != ks[j] by {
        assert(ks[i].len() != ks[j].len()
            || ks[i][0] != ks[j][0]);
    }
}

proof fn lemma_token_holders_keys_unique()
    ensures
        keys_unique(seq![
            required("token_address", ValueKind::Text),
            optional("page", ValueKind::Integer),
            optional("page_size", ValueKind::Integer),
            optional("from_amount", ValueKind::Text),
            optional("to_amount", ValueKind::Text),
        ]),
{
    reveal_strlit("token_address");
    reveal_strlit("page");
    reveal_strlit("page_size");
    reveal_strlit("from_amount");
    reveal_strlit("to_amount");
    let ps = seq![
        required("token_address", ValueKind::Text),
        optional("page", ValueKind::Integer),
        optional("page_size", ValueKind::Integer),
        optional("from_amount", ValueKind::Text),
        optional("to_amount", ValueKind::Text),
    ];
    let ks = seq![
        "token_address"@,
        "page"@,
        "page_size"@,
        "from_amount"@,
        "to_amount"@,
    ];
    assert forall|i: int| 0 <= i < ps.len() implies #[trigger] ps[i].key@ == ks[i] by {}
    assert forall|i: int, j: int|
        0 <= i < ks.len() && 0 <= j < ks.len() && i != j implies ks[i] != ks[j] by {
        assert(ks[i].len() != ks[j].len()
            || ks[i][0] != ks[j][0]);
    }
}

proof fn lemma_token_list_keys_unique()
    ensures
        keys_unique(seq![
            optional("sort_by", ValueKind::Text),
            optional("sort_order", ValueKind::Text),
            optional("page", ValueKind::Integer),
            optional("page_size", ValueKind::Integer),
        ]),
{
    reveal_strlit("sort_by");
    reveal_strlit("sort_order");
    reveal_strlit("page");
    reveal_strlit("page_size");
    let ps = seq![
        optional("sort_by", ValueKind::Text),
        optional("sort_order", ValueKind::Text),
        optional("page", ValueKind::Integer),
        optional("page_size", ValueKind::Integer),
    ];
    let ks = seq![
        "sort_by"@,
        "sort_order"@,
        "page"@,
        "page_size"@,
    ];
    assert forall|i: int| 0 <= i < ps.len() implies #[trigger] ps[i].key@ == ks[i] by {}
    assert forall|i: int, j: int|
        0 <= i < ks.len() && 0 <= j < ks.len() && i != j implies ks[i] != ks[j] by {
        assert(ks[i].len() != ks[j].len()
            || ks[i][0] != ks[j][0]);
    }
}

proof fn lemma_token_price_keys_unique()
    ensures
        keys_unique(seq![
            required("token_address", ValueKind::Text),
            optional("from_time", ValueKind::Integer),
            optional("to_time", ValueKind::Integer),
        ]),
{
    reveal_strlit("token_address");
    reveal_strlit("from_time");
    reveal_strlit("to_time");
    let ps = seq![
        required("token_address", ValueKind::Text),
        optional("from_time", ValueKind::Integer),
        optional("to_time", ValueKind::Integer),
    ];
    let ks = seq![
        "token_address"@,
        "from_time"@,
        "to_time"@,
    ];
    assert forall|i: int| 0 <= i < ps.len() implies #[trigger] ps[i].key@ == ks[i] by {}
    assert forall|i: int, j: int|
        0 <= i < ks.len() && 0 <= j < ks.len() && i != j implies ks[i] != ks[j] by {
        assert(ks[i].len() != ks[j].len()
            || ks[i][0] != ks[j][0]);
    }
}

proof fn lemma_token_price_multi_keys_unique()
    ensures
        keys_unique(seq![
            required("address", ValueKind::TextList),
            optional("from_time", ValueKind::Integer),
            optional("to_time", ValueKind::Integer),
        ]),
{
    reveal_strlit("address");
    reveal_strlit("from_time");
    reveal_strlit("to_time");
    let ps = seq![
        required("address", ValueKind::TextList),
        optional("from_time", ValueKind::Integer),
        optional("to_time", ValueKind::Integer),
    ];
    let ks = seq![
        "address"@,
        "from_time"@,
        "to_time"@,
    ];
    assert forall|i: int| 0 <= i < ps.len() implies #[trigger] ps[i].key@ == ks[i] by {}
    assert forall|i: int, j: int|
        0 <= i < ks.len() && 0 <= j < ks.len() && i != j implies ks[i] != ks[j] by {
        assert(ks[i].len() != ks[j].len()
            || ks[i][0] != ks[j][0]);
    }
}

proof fn lemma_token_transfer_keys_unique()
    ensures
        keys_unique(seq![
            required("address", ValueKind::Text),
            optional("activity_type", ValueKind::TextList),
            optional("from", ValueKind::Text),
            optional("to", ValueKind::Text),
            optional("amount", ValueKind::TextList),
            optional("block_time", ValueKind::IntegerList),
            optional("exclude_amount_zero", ValueKind::Boolean),
            optional("page", ValueKind::Integer),
            optional("page_size", ValueKind::Integer),
            optional("sort_by", ValueKind::Text),
            optional("sort_order", ValueKind::Text),
            optional("value", ValueKind::TextList),
        ]),
{
    reveal_strlit("address");
    reveal_strlit("activity_type");
    reveal_strlit("from");
    reveal_strlit("to");
    reveal_strlit("amount");
    reveal_strlit("block_time");
    reveal_strlit("exclude_amount_zero");
    reveal_strlit("page");
    reveal_strlit("page_size");
    reveal_strlit("sort_by");
    reveal_strlit("sort_order");
    reveal_strlit("value");
    let ps = seq![
        required("address", ValueKind::Text),
        optional("activity_type", ValueKind::TextList),
        optional("from", ValueKind::Text),
        optional("to", ValueKind::Text),
        optional("amount", ValueKind::TextList),
        optional("block_time", ValueKind::IntegerList),
        optional("exclude_amount_zero", ValueKind::Boolean),
        optional("page", ValueKind::Integer),
        optional("page_size", ValueKind::Integer),
        optional("sort_by", ValueKind::Text),
        optional("sort_order", ValueKind::Text),
        optional("value", ValueKind::TextList),
    ];
    let ks = seq![
        "address"@,
        "activity_type"@,
        "from"@,
        "to"@,
        "amount"@,
        "block_time"@,
        "exclude_amount_zero"@,
        "page"@,
        "page_size"@,
        "sort_by"@,
        "sort_order"@,
        "value"@,
    ];
    assert forall|i: int| 0 <= i < ps.len() implies #[trigger] ps[i].key@ == ks[i] by {}
    assert forall|i: int, j: int|
        0 <= i < ks.len() && 0 <= j < ks.len() && i != j implies ks[i] != ks[j] by {
        assert(ks[i].len() != ks[j].len()
            || ks[i][0] != ks[j][0]);
    }
}

proof fn lemma_token_defi_activities_keys_unique()
    ensures
        keys_unique(seq![
            required("address", ValueKind::Text),
            optional("from", ValueKind::Text),
            optional("platform", ValueKind::TextList),
            optional("source", ValueKind::TextList),
            optional("activity_type", ValueKind::TextList),
            optional("token", ValueKind::Text),
            optional("from_time", ValueKind::Integer),
            optional("to_time", ValueKind::Integer),
            optional("page", ValueKind::Integer),
            optional("page_size", ValueKind::Integer),
            optional("sort_by", ValueKind::Text),
            optional("sort_order", ValueKind::Text),
        ]),
{
    reveal_strlit("address");
    reveal_strlit("from");
    reveal_strlit("platform");
    reveal_strlit("source");
    reveal_strlit("activity_type");
    reveal_strlit("token");
    reveal_strlit("from_time");
    reveal_strlit("to_time");
    reveal_strlit("page");
    reveal_strlit("page_size");
    reveal_strlit("sort_by");
    reveal_strlit("sort_order");
    let ps = seq![
        required("address", ValueKind::Text),
        optional("from", ValueKind::Text),
        optional("platform", ValueKind::TextList),
        optional("source", ValueKind::TextList),
        optional("activity_type", ValueKind::TextList),
        optional("token", ValueKind::Text),
        optional("from_time", ValueKind::Integer),
        optional("to_time", ValueKind::Integer),
        optional("page", ValueKind::Integer),
        optional("page_size", ValueKind::Integer),
        optional("sort_by", ValueKind::Text),
        optional("sort_order", ValueKind::Text),
    ];
    let ks = seq![
        "address"@,
        "from"@,
        "platform"@,
        "source"@,
        "activity_type"@,
        "token"@,
        "from_time"@,
        "to_time"@,
        "page"@,
        "page_size"@,
        "sort_by"@,
        "sort_order"@,
    ];
    assert forall|i: int| 0 <= i < ps.len() implies #[trigger] ps[i].key@ == ks[i] by {}
    assert forall|i: int, j: int|
        0 <= i < ks.len() && 0 <= j < ks.len() && i != j implies ks[i] != ks[j] by {
        assert(ks[i].len() != ks[j].len()
            || ks[i][0] != ks[j][0]);
    }
}

proof fn lemma_token_operations_wf(name: Seq<char>)
    ensures
        token_operations(name) matches Some(op) ==> op.wf(),
{
    lemma_token_markets_keys_unique();
    lemma_token_holders_keys_unique();
    lemma_token_list_keys_unique();
    lemma_token_price_keys_unique();
    lemma_token_price_multi_keys_unique();
    lemma_token_transfer_keys_unique();
    lemma_token_defi_activities_keys_unique();
}

proof fn lemma_account_transfer_keys_unique()
    ensures
        keys_unique(seq![
            required("address", ValueKind::Text),
            optional("activity_type", ValueKind::TextList),
            optional("token_account", ValueKind::Text),
            optional("from", ValueKind::Text),
            optional("to", ValueKind::Text),
            optional("token", ValueKind::Text),
            optional("amount", ValueKind::TextList),
            optional("from_time", ValueKind::Integer),
            optional("to_time", ValueKind::Integer),
            optional("exclude_amount_zero", ValueKind::Boolean),
            optional("flow", ValueKind::Text),
            optional("page", ValueKind::Integer),
            optional("page_size", ValueKind::Integer),
            optional("sort_by", ValueKind::Text),
            optional("sort_order", ValueKind::Text),
            optional("value", ValueKind::TextList),
        ]),
{
    reveal_strlit("address");
    reveal_strlit("activity_type");
    reveal_strlit("token_account");
    reveal_strlit("from");
    reveal_strlit("to");
    reveal_strlit("token");
    reveal_strlit("amount");
    reveal_strlit("from_time");
    reveal_strlit("to_time");
    reveal_strlit("exclude_amount_zero");
    reveal_strlit("flow");
    reveal_strlit("page");
    reveal_strlit("page_size");
    reveal_strlit("sort_by");
    reveal_strlit("sort_order");
    reveal_strlit("value");
    let ps = seq![
        required("address", ValueKind::Text),
        optional("activity_type", ValueKind::TextList),
        optional("token_account", ValueKind::Text),
        optional("from", ValueKind::Text),
        optional("to", ValueKind::Text),
        optional("token", ValueKind::Text),
        optional("amount", ValueKind::TextList),
        optional("from_time", ValueKind::Integer),
        optional("to_time", ValueKind::Integer),
        optional("exclude_amount_zero", ValueKind::Boolean),
        optional("flow", ValueKind::Text),
        optional("page", ValueKind::Integer),
        optional("page_size", ValueKind::Integer),
        optional("sort_by", ValueKind::Text),
        optional("sort_order", ValueKind::Text),
        optional("value", ValueKind::TextList),
    ];
    let ks = seq![
        "address"@,
        "activity_type"@,
        "token_account"@,
        "from"@,
        "to"@,
        "token"@,
        "amount"@,
        "from_time"@,
        "to_time"@,
        "exclude_amount_zero"@,
        "flow"@,
        "page"@,
        "page_size"@,
        "sort_by"@,
        "sort_order"@,
        "value"@,
    ];
    assert forall|i: int| 0 <= i < ps.len() implies #[trigger] ps[i].key@ == ks[i] by {}
    assert forall|i: int, j: int|
        0 <= i < ks.len() && 0 <= j < ks.len() && i != j implies ks[i] != ks[j] by {
        assert(ks[i].len() != ks[j].len()
            || ks[i][0] != ks[j][0]
            || ks[i][1] != ks[j][1]);
    }
}

proof fn lemma_balance_change_keys_unique()
    ensures
        keys_unique(seq![
            required("address", ValueKind::Text),
            optional("token_account", ValueKind::Text),
            optional("token", ValueKind::Text),
            optional("from_time", ValueKind::Integer),
            optional("to_time", ValueKind::Integer),
            optional("page", ValueKind::Integer),
            optional("page_size", ValueKind::Integer),
            optional("remove_spam", ValueKind::Text),
            optional("amount", ValueKind::TextList),
            optional("flow", ValueKind::Text),
            optional("sort_by", ValueKind::Text),
            optional("sort_order", ValueKind::Text),
            optional("before_tx", ValueKind::Text),
        ]),
{
    reveal_strlit("address");
    reveal_strlit("token_account");
    reveal_strlit("token");
    reveal_strlit("from_time");
    reveal_strlit("to_time");
    reveal_strlit("page");
    reveal_strlit("page_size");
    reveal_strlit("remove_spam");
    reveal_strlit("amount");
    reveal_strlit("flow");
    reveal_strlit("sort_by");
    reveal_strlit("sort_order");
    reveal_strlit("before_tx");
    let ps = seq![
        required("address", ValueKind::Text),
        optional("token_account", ValueKind::Text),
        optional("token", ValueKind::Text),
        optional("from_time", ValueKind::Integer),
        optional("to_time", ValueKind::Integer),
        optional("page", ValueKind::Integer),
        optional("page_size", ValueKind::Integer),
        optional("remove_spam", ValueKind::Text),
        optional("amount", ValueKind::TextList),
        optional("flow", ValueKind::Text),
        optional("sort_by", ValueKind::Text),
        optional("sort_order", ValueKind::Text),
        optional("before_tx", ValueKind::Text),
    ];
    let ks = seq![
        "address"@,
        "token_account"@,
        "token"@,
        "from_time"@,
        "to_time"@,
        "page"@,
        "page_size"@,
        "remove_spam"@,
        "amount"@,
        "flow"@,
        "sort_by"@,
        "sort_order"@,
        "before_tx"@,
    ];
    assert forall|i: int| 0 <= i < ps.len() implies #[trigger] ps[i].key@ == ks[i] by {}
    assert forall|i: int, j: int|
        0 <= i < ks.len() && 0 <= j < ks.len() && i != j implies ks[i] != ks[j] by {
        assert(ks[i].len() != ks[j].len()
            || ks[i][0] != ks[j][0]);
    }
}

proof fn lemma_account_defi_activities_keys_unique()
    ensures
        keys_unique(seq![
            required("address", ValueKind::Text),
            optional("activity_type", ValueKind::TextList),
            optional("from", ValueKind::Text),
            optional("platform", ValueKind::TextList),
            optional("source", ValueKind::TextList),
            optional("token", ValueKind::Text),
            optional("from_time", ValueKind::Integer),
            optional("to_time", ValueKind::Integer),
            optional("page", ValueKind::Integer),
            optional("page_size", ValueKind::Integer),
            optional("sort_by", ValueKind::Text),
            optional("sort_order", ValueKind::Text),
        ]),
{
    reveal_strlit("address");
    reveal_strlit("activity_type");
    reveal_strlit("from");
    reveal_strlit("platform");
    reveal_strlit("source");
    reveal_strlit("token");
    reveal_strlit("from_time");
    reveal_strlit("to_time");
    reveal_strlit("page");
    reveal_strlit("page_size");
    reveal_strlit("sort_by");
    reveal_strlit("sort_order");
    let ps = seq![
        required("address", ValueKind::Text),
        optional("activity_type", ValueKind::TextList),
        optional("from", ValueKind::Text),
        optional("platform", ValueKind::TextList),
        optional("source", ValueKind::TextList),
        optional("token", ValueKind::Text),
        optional("from_time", ValueKind::Integer),
        optional("to_time", ValueKind::Integer),
        optional("page", ValueKind::Integer),
        optional("page_size", ValueKind::Integer),
        optional("sort_by", ValueKind::Text),
        optional("sort_order", ValueKind::Text),
    ];
    let ks = seq![
        "address"@,
        "activity_type"@,
        "from"@,
        "platform"@,
        "source"@,
        "token"@,
        "from_time"@,
        "to_time"@,
        "page"@,
        "page_size"@,
        "sort_by"@,
        "sort_order"@,
    ];
    assert forall|i: int| 0 <= i < ps.len() implies #[trigger] ps[i].key@ == ks[i] by {}
    assert forall|i: int, j: int|
        0 <= i < ks.len() && 0 <= j < ks.len() && i != j implies ks[i] != ks[j] by {
        assert(ks[i].len() != ks[j].len()
            || ks[i][0] != ks[j][0]);
    }
}

proof fn lemma_account_transactions_keys_unique()
    ensures
        keys_unique(seq![
            required("address", ValueKind::Text),
            optional("before", ValueKind::Text),
            optional("limit", ValueKind::Integer),
        ]),
{
    reveal_strlit("address");
    reveal_strlit("before");
    reveal_strlit("limit");
    let ps = seq![
        required("address", ValueKind::Text),
        optional("before", ValueKind::Text),
        optional("limit", ValueKind::Integer),
    ];
    let ks = seq![
        "address"@,
        "before"@,
        "limit"@,
    ];
    assert forall|i: int| 0 <= i < ps.len() implies #[trigger] ps[i].key@ == ks[i] by {}
    assert forall|i: int, j: int|
        0 <= i < ks.len() && 0 <= j < ks.len() && i != j implies ks[i] != ks[j] by {
        assert(ks[i].len() != ks[j].len()
            || ks[i][0] != ks[j][0]);
    }
}

proof fn lemma_account_token_accounts_keys_unique()
    ensures
        keys_unique(seq![
            required("address", ValueKind::Text),
            required("type", ValueKind::Text),
            optional("page", ValueKind::Integer),
            optional("page_size", ValueKind::Integer),
            optional("hide_zero", ValueKind::Boolean),
        ]),
{
    reveal_strlit("address");
    reveal_strlit("type");
    reveal_strlit("page");
    reveal_strlit("page_size");
    reveal_strlit("hide_zero");
    let ps = seq![
        required("address", ValueKind::Text),
        required("type", ValueKind::Text),
        optional("page", ValueKind::Integer),
        optional("page_size", ValueKind::Integer),
        optional("hide_zero", ValueKind::Boolean),
    ];
    let ks = seq![
        "address"@,
        "type"@,
        "page"@,
        "page_size"@,
        "hide_zero"@,
    ];
    assert forall|i: int| 0 <= i < ps.len() implies #[trigger] ps[i].key@ == ks[i] by {}
    assert forall|i: int, j: int|
        0 <= i < ks.len() && 0 <= j < ks.len() && i != j implies ks[i] != ks[j] by {
        assert(ks[i].len() != ks[j].len()
            || ks[i][0] != ks[j][0]);
    }
}

proof fn lemma_account_stake_keys_unique()
    ensures
        keys_unique(seq![
            required("address", ValueKind::Text),
            optional("page", ValueKind::Integer),
            optional("page_size", ValueKind::Integer),
        ]),
{
    reveal_strlit("address");
    reveal_strlit("page");
    reveal_strlit("page_size");
    let ps = seq![
        required("address", ValueKind::Text),
        optional("page", ValueKind::Integer),
        optional("page_size", ValueKind::Integer),
    ];
    let ks = seq![
        "address"@,
        "page"@,
        "page_size"@,
    ];
    assert forall|i: int| 0 <= i < ps.len() implies #[trigger] ps[i].key@ == ks[i] by {}
    assert forall|i: int, j: int|
        0 <= i < ks.len() && 0 <= j < ks.len() && i != j implies ks[i] != ks[j] by {
        assert(ks[i].len() != ks[j].len()
            || ks[i][0] != ks[j][0]);
    }
}

proof fn lemma_account_reward_export_keys_unique()
    ensures
        keys_unique(seq![
            required("address", ValueKind::Text),
            optional("time_from", ValueKind::Integer),
            optional("time_to", ValueKind::Integer),
        ]),
{
    reveal_strlit("address");
    reveal_strlit("time_from");
    reveal_strlit("time_to");
    let ps = seq![
        required("address", ValueKind::Text),
        optional("time_from", ValueKind::Integer),
        optional("time_to", ValueKind::Integer),
    ];
    let ks = seq![
        "address"@,
        "time_from"@,
        "time_to"@,
    ];
    assert forall|i: int| 0 <= i < ps.len() implies #[trigger] ps[i].key@ == ks[i] by {}
    assert forall|i: int, j: int|
        0 <= i < ks.len() && 0 <= j < ks.len() && i != j implies ks[i] != ks[j] by {
        assert(ks[i].len() != ks[j].len()
            || ks[i][0] != ks[j][0]);
    }
}

proof fn lemma_account_transfer_export_keys_unique()
    ensures
        keys_unique(seq![
            required("address", ValueKind::Text),
            optional("activity_type", ValueKind::TextList),
            optional("token_account", ValueKind::Text),
            optional("from", ValueKind::Text),
            optional("to", ValueKind::Text),
            optional("token", ValueKind::Text),
            optional("amount", ValueKind::TextList),
            optional("from_time", ValueKind::Integer),
            optional("to_time", ValueKind::Integer),
            optional("exclude_amount_zero", ValueKind::Boolean),
            optional("flow", ValueKind::Text),
        ]),
{
    reveal_strlit("address");
    reveal_strlit("activity_type");
    reveal_strlit("token_account");
    reveal_strlit("from");
    reveal_strlit("to");
    reveal_strlit("token");
    reveal_strlit("amount");
    reveal_strlit("from_time");
    reveal_strlit("to_time");
    reveal_strlit("exclude_amount_zero");
    reveal_strlit("flow");
    let ps = seq![
        required("address", ValueKind::Text),
        optional("activity_type", ValueKind::TextList),
        optional("token_account", ValueKind::Text),
        optional("from", ValueKind::Text),
        optional("to", ValueKind::Text),
        optional("token", ValueKind::Text),
        optional("amount", ValueKind::TextList),
        optional("from_time", ValueKind::Integer),
        optional("to_time", ValueKind::Integer),
        optional("exclude_amount_zero", ValueKind::Boolean),
        optional("flow", ValueKind::Text),
    ];
    let ks = seq![
        "address"@,
        "activity_type"@,
        "token_account"@,
        "from"@,
        "to"@,
        "token"@,
        "amount"@,
        "from_time"@,
        "to_time"@,
        "exclude_amount_zero"@,
        "flow"@,
    ];
    assert forall|i: int| 0 <= i < ps.len() implies #[trigger] ps[i].key@ == ks[i] by {}
    assert forall|i: int, j: int|
        0 <= i < ks.len() && 0 <= j < ks.len() && i != j implies ks[i] != ks[j] by {
        assert(ks[i].len() != ks[j].len()
            || ks[i][0] != ks[j][0]
            || ks[i][1] != ks[j][1]);
    }
}

proof fn lemma_account_operations_wf(name: Seq<char>)
    ensures
        account_operations(name) matches Some(op) ==> op.wf(),
{
    lemma_account_transfer_keys_unique();
    lemma_balance_change_keys_unique();
    lemma_account_defi_activities_keys_unique();
    lemma_account_transactions_keys_unique();
    lemma_account_token_accounts_keys_unique();
    lemma_account_stake_keys_unique();
    lemma_account_reward_export_keys_unique();
    lemma_account_transfer_export_keys_unique();
}

proof fn lemma_transaction_last_keys_unique()
    ensures
        keys_unique(seq![
            optional("limit", ValueKind::Integer),
            optional("filter", ValueKind::Text),
        ]),
{
    reveal_strlit("limit");
    reveal_strlit("filter");
    let ps = seq![
        optional("limit", ValueKind::Integer),
        optional("filter", ValueKind::Text),
    ];
    let ks = seq![
        "limit"@,
        "filter"@,
    ];
    assert forall|i: int| 0 <= i < ps.len() implies #[trigger] ps[i].key@ == ks[i] by {}
    assert forall|i: int, j: int|
        0 <= i < ks.len() && 0 <= j < ks.len() && i != j implies ks[i] != ks[j] by {
        assert(ks[i].len() != ks[j].len()
            || ks[i][0] != ks[j][0]);
    }
}

proof fn lemma_transaction_operations_wf(name: Seq<char>)
    ensures
        transaction_operations(name) matches Some(op) ==> op.wf(),
{
    lemma_transaction_last_keys_unique();
}

proof fn lemma_block_transactions_keys_unique()
    ensures
        keys_unique(seq![
            required("block", ValueKind::Integer),
            optional("page", ValueKind::Integer),
            optional("page_size", ValueKind::Integer),
            optional("exclude_vote", ValueKind::Boolean),
            optional("program", ValueKind::Text),
        ]),
{
    reveal_strlit("block");
    reveal_strlit("page");
    reveal_strlit("page_size");
    reveal_strlit("exclude_vote");
    reveal_strlit("program");
    let ps = seq![
        required("block", ValueKind::Integer),
        optional("page", ValueKind::Integer),
        optional("page_size", ValueKind::Integer),
        optional("exclude_vote", ValueKind::Boolean),
        optional("program", ValueKind::Text),
    ];
    let ks = seq![
        "block"@,
        "page"@,
        "page_size"@,
        "exclude_vote"@,
        "program"@,
    ];
    assert forall|i: int| 0 <= i < ps.len() implies #[trigger] ps[i].key@ == ks[i] by {}
    assert forall|i: int, j: int|
        0 <= i < ks.len() && 0 <= j < ks.len() && i != j implies ks[i] != ks[j] by {
        assert(ks[i].len() != ks[j].len()
            || ks[i][0] != ks[j][0]);
    }
}

proof fn lemma_block_operations_wf(name: Seq<char>)
    ensures
        block_operations(name) matches Some(op) ==> op.wf(),
{
    lemma_block_transactions_keys_unique();
}

proof fn lemma_market_list_keys_unique()
    ensures
        keys_unique(seq![
            optional("page", ValueKind::Integer),
            optional("page_size", ValueKind::Integer),
            optional("program", ValueKind::Text),
        ]),
{
    reveal_strlit("page");
    reveal_strlit("page_size");
    reveal_strlit("program");
    let ps = seq![
        optional("page", ValueKind::Integer),
        optional("page_size", ValueKind::Integer),
        optional("program", ValueKind::Text),
    ];
    let ks = seq![
        "page"@,
        "page_size"@,
        "program"@,
    ];
    assert forall|i: int| 0 <= i < ps.len() implies #[trigger] ps[i].key@ == ks[i] by {}
    assert forall|i: int, j: int|
        0 <= i < ks.len() && 0 <= j < ks.len() && i != j implies ks[i] != ks[j] by {
        assert(ks[i].len() != ks[j].len()
            || ks[i][0] != ks[j][0]);
    }
}

proof fn lemma_market_volume_keys_unique()
    ensures
        keys_unique(seq![
            required("address", ValueKind::Text),
            optional("time", ValueKind::TextList),
        ]),
{
    reveal_strlit("address");
    reveal_strlit("time");
    let ps = seq![
        required("address", ValueKind::Text),
        optional("time", ValueKind::TextList),
    ];
    let ks = seq![
        "address"@,
        "time"@,
    ];
    assert forall|i: int| 0 <= i < ps.len() implies #[trigger] ps[i].key@ == ks[i] by {}
    assert forall|i: int, j: int|
        0 <= i < ks.len() && 0 <= j < ks.len() && i != j implies ks[i] != ks[j] by {
        assert(ks[i].len() != ks[j].len()
            || ks[i][0] != ks[j][0]);
    }
}

proof fn lemma_market_operations_wf(name: Seq<char>)
    ensures
        market_operations(name) matches Some(op) ==> op.wf(),
{
    lemma_market_list_keys_unique();
    lemma_market_volume_keys_unique();
}

proof fn lemma_nft_news_keys_unique()
    ensures
        keys_unique(seq![
            required("filter", ValueKind::Text),
            optional("page", ValueKind::Integer),
            optional("page_size", ValueKind::Integer),
        ]),
{
    reveal_strlit("filter");
    reveal_strlit("page");
    reveal_strlit("page_size");
    let ps = seq![
        required("filter", ValueKind::Text),
        optional("page", ValueKind::Integer),
        optional("page_size", ValueKind::Integer),
    ];
    let ks = seq![
        "filter"@,
        "page"@,
        "page_size"@,
    ];
    assert forall|i: int| 0 <= i < ps.len() implies #[trigger] ps[i].key@ == ks[i] by {}
    assert forall|i: int, j: int|
        0 <= i < ks.len() && 0 <= j < ks.len() && i != j implies ks[i] != ks[j] by {
        assert(ks[i].len() != ks[j].len()
            || ks[i][0] != ks[j][0]);
    }
}

proof fn lemma_nft_activities_keys_unique()
    ensures
        keys_unique(seq![
            optional("from", ValueKind::Text),
            optional("to", ValueKind::Text),
            optional("source", ValueKind::TextList),
            optional("activity_type", ValueKind::TextList),
            optional("from_time", ValueKind::Integer),
            optional("to_time", ValueKind::Integer),
            optional("token", ValueKind::Text),
            optional("collection", ValueKind::Text),
            optional("currency_token", ValueKind::Text),
            optional("price", ValueKind::TextList),
            optional("page", ValueKind::Integer),
            optional("page_size", ValueKind::Integer),
        ]),
{
    reveal_strlit("from");
    reveal_strlit("to");
    reveal_strlit("source");
    reveal_strlit("activity_type");
    reveal_strlit("from_time");
    reveal_strlit("to_time");
    reveal_strlit("token");
    reveal_strlit("collection");
    reveal_strlit("currency_token");
    reveal_strlit("price");
    reveal_strlit("page");
    reveal_strlit("page_size");
    let ps = seq![
        optional("from", ValueKind::Text),
        optional("to", ValueKind::Text),
        optional("source", ValueKind::TextList),
        optional("activity_type", ValueKind::TextList),
        optional("from_time", ValueKind::Integer),
        optional("to_time", ValueKind::Integer),
        optional("token", ValueKind::Text),
        optional("collection", ValueKind::Text),
        optional("currency_token", ValueKind::Text),
        optional("price", ValueKind::TextList),
        optional("page", ValueKind::Integer),
        optional("page_size", ValueKind::Integer),
    ];
    let ks = seq![
        "from"@,
        "to"@,
        "source"@,
        "activity_type"@,
        "from_time"@,
        "to_time"@,
        "token"@,
        "collection"@,
        "currency_token"@,
        "price"@,
        "page"@,
        "page_size"@,
    ];
    assert forall|i: int| 0 <= i < ps.len() implies #[trigger] ps[i].key@ == ks[i] by {}
    assert forall|i: int, j: int|
        0 <= i < ks.len() && 0 <= j < ks.len() && i != j implies ks[i] != ks[j] by {
        assert(ks[i].len() != ks[j].len()
            || ks[i][0] != ks[j][0]);
    }
}

proof fn lemma_nft_collection_lists_keys_unique()
    ensures
        keys_unique(seq![
            optional("range", ValueKind::Integer),
            optional("sort_order", ValueKind::Text),
            optional("sort_by", ValueKind::Text),
            optional("page", ValueKind::Integer),
            optional("page_size", ValueKind::Integer),
            optional("collection", ValueKind::Text),
        ]),
{
    reveal_strlit("range");
    reveal_strlit("sort_order");
    reveal_strlit("sort_by");
    reveal_strlit("page");
    reveal_strlit("page_size");
    reveal_strlit("collection");
    let ps = seq![
        optional("range", ValueKind::Integer),
        optional("sort_order", ValueKind::Text),
        optional("sort_by", ValueKind::Text),
        optional("page", ValueKind::Integer),
        optional("page_size", ValueKind::Integer),
        optional("collection", ValueKind::Text),
    ];
    let ks = seq![
        "range"@,
        "sort_order"@,
        "sort_by"@,
        "page"@,
        "page_size"@,
        "collection"@,
    ];
    assert forall|i: int| 0 <= i < ps.len() implies #[trigger] ps[i].key@ == ks[i] by {}
    assert forall|i: int, j: int|
        0 <= i < ks.len() && 0 <= j < ks.len() && i != j implies ks[i] != ks[j] by {
        assert(ks[i].len() != ks[j].len()
            || ks[i][0] != ks[j][0]);
    }
}

proof fn lemma_nft_collection_items_keys_unique()
    ensures
        keys_unique(seq![
            required("collection", ValueKind::Text),
            optional("sort_by", ValueKind::Text),
            optional("page", ValueKind::Integer),
            optional("page_size", ValueKind::Integer),
        ]),
{
    reveal_strlit("collection");
    reveal_strlit("sort_by");
    reveal_strlit("page");
    reveal_strlit("page_size");
    let ps = seq![
        required("collection", ValueKind::Text),
        optional("sort_by", ValueKind::Text),
        optional("page", ValueKind::Integer),
        optional("page_size", ValueKind::Integer),
    ];
    let ks = seq![
        "collection"@,
        "sort_by"@,
        "page"@,
        "page_size"@,
    ];
    assert forall|i: int| 0 <= i < ps.len() implies #[trigger] ps[i].key@ == ks[i] by {}
    assert forall|i: int, j: int|
        0 <= i < ks.len() && 0 <= j < ks.len() && i != j implies ks[i] != ks[j] by {
        assert(ks[i].len() != ks[j].len()
            || ks[i][0] != ks[j][0]);
    }
}

proof fn lemma_nft_operations_wf(name: Seq<char>)
    ensures
        nft_operations(name) matches Some(op) ==> op.wf(),
{
    lemma_nft_news_keys_unique();
    lemma_nft_activities_keys_unique();
    lemma_nft_collection_lists_keys_unique();
    lemma_nft_collection_items_keys_unique();
}

/// Every registered operation declares each parameter key once.
pub proof fn lemma_registered_wf(name: Seq<char>)
    ensures
        registered(name) matches Some(op) ==> op.wf(),
{
    lemma_chain_operations_wf(name);
    lemma_token_operations_wf(name);
    lemma_account_operations_wf(name);
    lemma_transaction_operations_wf(name);
    lemma_block_operations_wf(name);
    lemma_market_operations_wf(name);
    lemma_nft_operations_wf(name);
}

} // verus!
