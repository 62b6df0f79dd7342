use vstd::prelude::*;

use crate::json::{
    clone_items, clone_option, items_view, member, no_members, nullable, nullable_text,
    option_view, put, string_array, text_array, text_of, text_or_null, Json, JsonView,
};
use crate::text::{option_text, same_text, texts_view};

verus! {

/// The transport code of a blocker that asks for shared KYC attributes.
pub const KYC_SHARE_NEEDED: &'static str = "KEETA_ANCHOR_ASSET_MOVEMENT_KYC_SHARE_NEEDED";

/// The transport code of a blocker that asks for additional KYC steps.
pub const ADDITIONAL_KYC_NEEDED: &'static str = "KEETA_ANCHOR_ASSET_MOVEMENT_ADDITIONAL_KYC_NEEDED";

/// The transport code of a blocker that reports an unsupported operation.
pub const OPERATION_NOT_SUPPORTED: &'static str =
    "KEETA_ANCHOR_ASSET_MOVEMENT_OPERATION_NOT_SUPPORTED";

/// The transport code of a blocker that asks the user to act.
pub const USER_ACTION_NEEDED: &'static str = "KEETA_ANCHOR_ASSET_MOVEMENT_USER_ACTION_NEEDED";

/// A blocker an anchor reports that a user must resolve before proceeding.
///
/// Recognized codes give their typed variant; any other error is kept verbatim as
/// [`Other`](Self::Other).
#[derive(Debug, Clone, PartialEq, Eq)]
pub enum AssetMovementBlocker {
    /// The user must share KYC attributes before proceeding.
    KycShareNeeded {
        /// A terms-of-service flow to complete first, when there is one.
        tos_flow: Option<Json>,
        /// The attribute names the anchor needs, when specified.
        needed_attributes: Option<Vec<String>>,
        /// The principals the attributes must be shared with.
        share_with_principals: Vec<String>,
        /// Accepted issuer sets, each a list of `{ name, value }` entries.
        accepted_issuers: Json,
    },
    /// The user must complete additional KYC steps.
    AdditionalKycNeeded {
        /// The flow the user must complete, when specified.
        to_complete_flow: Option<Json>,
    },
    /// The requested operation is not supported for the given asset or rail.
    OperationNotSupported {
        /// The asset (or pair) the operation is unsupported for.
        for_asset: Option<Json>,
        /// The rail the operation is unsupported for.
        for_rail: Option<String>,
    },
    /// The user must take one or more on-ledger actions.
    UserActionNeeded {
        /// The actions to perform, each an opaque action descriptor.
        actions_needed: Vec<Json>,
    },
    /// Any other anchor error, kept verbatim.
    Other {
        /// The error class name.
        name: String,
        /// The programmatic error code, when present.
        code: Option<String>,
        /// The human-readable message.
        message: String,
    },
}

/// What an [`AssetMovementBlocker`] reports.
pub enum BlockerView {
    KycShareNeeded {
        tos_flow: Option<JsonView>,
        needed_attributes: Option<Seq<Seq<char>>>,
        share_with_principals: Seq<Seq<char>>,
        accepted_issuers: JsonView,
    },
    AdditionalKycNeeded { to_complete_flow: Option<JsonView> },
    OperationNotSupported { for_asset: Option<JsonView>, for_rail: Option<Seq<char>> },
    UserActionNeeded { actions_needed: Seq<JsonView> },
    Other { name: Seq<char>, code: Option<Seq<char>>, message: Seq<char> },
}

impl View for AssetMovementBlocker {
    type V = BlockerView;

    open spec fn view(&self) -> BlockerView {
        match self {
            AssetMovementBlocker::KycShareNeeded {
                tos_flow,
                needed_attributes,
                share_with_principals,
                accepted_issuers,
            } => BlockerView::KycShareNeeded {
                tos_flow: option_view(*tos_flow),
                needed_attributes: match needed_attributes {
                    Some(names) => Some(texts_view(names@)),
                    None => None,
                },
                share_with_principals: texts_view(share_with_principals@),
                accepted_issuers: accepted_issuers@,
            },
            AssetMovementBlocker::AdditionalKycNeeded {
                to_complete_flow,
            } => BlockerView::AdditionalKycNeeded { to_complete_flow: option_view(*to_complete_flow) },
            AssetMovementBlocker::OperationNotSupported {
                for_asset,
                for_rail,
            } => BlockerView::OperationNotSupported {
                for_asset: option_view(*for_asset),
                for_rail: option_text(*for_rail),
            },
            AssetMovementBlocker::UserActionNeeded {
                actions_needed,
            } => BlockerView::UserActionNeeded { actions_needed: items_view(actions_needed@) },
            AssetMovementBlocker::Other { name, code, message } => BlockerView::Other {
                name: name@,
                code: option_text(*code),
                message: message@,
            },
        }
    }
}

/// The member `name` of `data`, when `data` has it and it is not `null`.
pub open spec fn field_of(data: Option<JsonView>, name: Seq<char>) -> Option<JsonView> {
    match data {
        Some(data) => match member(data, name) {
            Some(JsonView::Null) => None,
            found => found,
        },
        None => None,
    }
}

/// The items of the array member `name` of `data`; none where there is no such array.
pub open spec fn array_field_of(data: Option<JsonView>, name: Seq<char>) -> Seq<JsonView> {
    match field_of(data, name) {
        Some(JsonView::Array(items)) => items,
        _ => Seq::empty(),
    }
}

/// The texts of those of `items` that are strings, in order.
pub open spec fn strings_among(items: Seq<JsonView>) -> Seq<Seq<char>>
    decreases items.len(),
{
    if items.len() == 0 {
        Seq::empty()
    } else {
        match items.last() {
            JsonView::String(text) => strings_among(items.drop_last()).push(text),
            _ => strings_among(items.drop_last()),
        }
    }
}

/// The text of the member `name` of `entry`; empty where there is no such string.
pub open spec fn text_or_empty(entry: JsonView, name: Seq<char>) -> Seq<char> {
    match text_of(member(entry, name)) {
        Some(text) => text,
        None => Seq::empty(),
    }
}

/// The blocker that the anchor error envelope `entry` reports.
pub open spec fn blocker_of(entry: JsonView) -> BlockerView {
    let code = text_of(member(entry, "code"@));
    let data = member(entry, "data"@);
    if code == Some(KYC_SHARE_NEEDED@) {
        BlockerView::KycShareNeeded {
            tos_flow: field_of(data, "tosFlow"@),
            needed_attributes: match field_of(data, "neededAttributes"@) {
                Some(JsonView::Array(items)) => Some(strings_among(items)),
                _ => None,
            },
            share_with_principals: strings_among(array_field_of(data, "shareWithPrincipals"@)),
            accepted_issuers: nullable(field_of(data, "acceptedIssuers"@)),
        }
    } else if code == Some(ADDITIONAL_KYC_NEEDED@) {
        BlockerView::AdditionalKycNeeded { to_complete_flow: field_of(data, "toCompleteFlow"@) }
    } else if code == Some(OPERATION_NOT_SUPPORTED@) {
        BlockerView::OperationNotSupported {
            for_asset: field_of(data, "forAsset"@),
            for_rail: text_of(field_of(data, "forRail"@)),
        }
    } else if code == Some(USER_ACTION_NEEDED@) {
        BlockerView::UserActionNeeded { actions_needed: array_field_of(data, "actionsNeeded"@) }
    } else {
        BlockerView::Other {
            name: text_or_empty(entry, "name"@),
            code,
            message: text_or_empty(entry, "error"@),
        }
    }
}

impl BlockerView {
    /// The transport code of a recognized blocker.
    pub open spec fn transport_code(self) -> Option<Seq<char>> {
        match self {
            BlockerView::KycShareNeeded { .. } => Some(KYC_SHARE_NEEDED@),
            BlockerView::AdditionalKycNeeded { .. } => Some(ADDITIONAL_KYC_NEEDED@),
            BlockerView::OperationNotSupported { .. } => Some(OPERATION_NOT_SUPPORTED@),
            BlockerView::UserActionNeeded { .. } => Some(USER_ACTION_NEEDED@),
            BlockerView::Other { .. } => None,
        }
    }

    /// The `type`-discriminated JSON of this blocker.
    pub open spec fn to_json(self) -> JsonView {
        match self {
            BlockerView::KycShareNeeded {
                tos_flow,
                needed_attributes,
                share_with_principals,
                accepted_issuers,
            } => JsonView::Object(
                map![
                    "acceptedIssuers"@ => accepted_issuers,
                    "neededAttributes"@ => match needed_attributes {
                        Some(names) => string_array(names),
                        None => JsonView::Null,
                    },
                    "shareWithPrincipals"@ => string_array(share_with_principals),
                    "tosFlow"@ => nullable(tos_flow),
                    "type"@ => JsonView::String("kycShareNeeded"@),
                ],
            ),
            BlockerView::AdditionalKycNeeded { to_complete_flow } => JsonView::Object(
                map![
                    "toCompleteFlow"@ => nullable(to_complete_flow),
                    "type"@ => JsonView::String("additionalKycNeeded"@),
                ],
            ),
            BlockerView::OperationNotSupported { for_asset, for_rail } => JsonView::Object(
                map![
                    "forAsset"@ => nullable(for_asset),
                    "forRail"@ => nullable_text(for_rail),
                    "type"@ => JsonView::String("operationNotSupported"@),
                ],
            ),
            BlockerView::UserActionNeeded { actions_needed } => JsonView::Object(
                map![
                    "actionsNeeded"@ => JsonView::Array(actions_needed),
                    "type"@ => JsonView::String("userActionNeeded"@),
                ],
            ),
            BlockerView::Other { name, code, message } => JsonView::Object(
                map![
                    "code"@ => nullable_text(code),
                    "message"@ => JsonView::String(message),
                    "name"@ => JsonView::String(name),
                    "type"@ => JsonView::String("other"@),
                ],
            ),
        }
    }
}

/// Reads the member `name` of `data`, treating `null` as absent.
fn field(data: Option<&Json>, name: &str) -> (found: Option<Json>)
    ensures
        option_view(found) == field_of(
            match data {
                Some(data) => Some(data@),
                None => None,
            },
            name@,
        ),
{
    match data {
        Some(data) => match data.get(name) {
            Some(found) => if found.is_null() {
                None
            } else {
                Some(found.clone())
            },
            None => None,
        },
        None => None,
    }
}

/// Reads the array member `name` of `data`, empty where there is none.
fn array_field(data: Option<&Json>, name: &str) -> (items: Vec<Json>)
    ensures
        items_view(items@) == array_field_of(
            match data {
                Some(data) => Some(data@),
                None => None,
            },
            name@,
        ),
{
    match field(data, name) {
        Some(Json::Array(items)) => items,
        _ => {
            let items: Vec<Json> = Vec::new();
            assert(items_view(items@) =~= Seq::empty());
            items
        },
    }
}

/// The texts of the strings among `items`, in order.
fn strings(items: &Vec<Json>) -> (texts: Vec<String>)
    ensures
        texts_view(texts@) == strings_among(items_view(items@)),
{
    let mut texts: Vec<String> = Vec::new();
    let mut i: usize = 0;
    let ghost all = items_view(items@);
    assert(all.take(0) =~= Seq::empty());
    assert(texts_view(texts@) =~= Seq::empty());
    while i < items.len()
        invariant
            i <= items@.len(),
            all == items_view(items@),
            texts_view(texts@) == strings_among(all.take(i as int)),
        decreases items@.len() - i,
    {
        assert(all.take(i + 1).drop_last() =~= all.take(i as int));
        assert(all.take(i + 1).last() == items@[i as int]@);
        let ghost before = texts@;
        match items[i].as_str() {
            Some(text) => {
                texts.push(text.to_owned());
                assert(texts_view(texts@) =~= texts_view(before).push(text@));
            },
            None => {},
        }
        i += 1;
    }
    assert(all.take(i as int) =~= all);
    texts
}

/// The text of the member `name` of `entry`, empty where there is none.
fn text_member(entry: &Json, name: &str) -> (text: String)
    ensures
        text@ == text_or_empty(entry@, name@),
{
    match entry.get(name) {
        Some(found) => match found.as_str() {
            Some(text) => text.to_owned(),
            None => String::new(),
        },
        None => String::new(),
    }
}

impl AssetMovementBlocker {
    /// The stable transport code of a recognized blocker.
    pub fn static_transport_code(&self) -> (code: Option<&'static str>)
        ensures
            self@.transport_code() == match code {
                Some(code) => Some(code@),
                None => None,
            },
    {
        match self {
            Self::KycShareNeeded { .. } => Some(KYC_SHARE_NEEDED),
            Self::AdditionalKycNeeded { .. } => Some(ADDITIONAL_KYC_NEEDED),
            Self::OperationNotSupported { .. } => Some(OPERATION_NOT_SUPPORTED),
            Self::UserActionNeeded { .. } => Some(USER_ACTION_NEEDED),
            Self::Other { .. } => None,
        }
    }

    /// Whether this blocker came from a known asset-movement error code.
    pub fn is_recognized(&self) -> (recognized: bool)
        ensures
            recognized == !(self@ is Other),
    {
        match self {
            Self::Other { .. } => false,
            _ => true,
        }
    }

    /// Reads a blocker from an anchor error envelope (`{ ok, name, code, data, error }`).
    pub fn from_transport(entry: &Json) -> (blocker: Self)
        ensures
            blocker@ == blocker_of(entry@),
    {
        let code: Option<&str> = match entry.get("code") {
            Some(code) => code.as_str(),
            None => None,
        };
        let data = entry.get("data");
        match code {
            Some(code) => {
                if same_text(code, KYC_SHARE_NEEDED) {
                    return Self::kyc_share_needed(data);
                }
                if same_text(code, ADDITIONAL_KYC_NEEDED) {
                    return Self::AdditionalKycNeeded {
                        to_complete_flow: field(data, "toCompleteFlow"),
                    };
                }
                if same_text(code, OPERATION_NOT_SUPPORTED) {
                    let for_rail = match field(data, "forRail") {
                        Some(Json::String(rail)) => Some(rail),
                        _ => None,
                    };
                    return Self::OperationNotSupported {
                        for_asset: field(data, "forAsset"),
                        for_rail,
                    };
                }
                if same_text(code, USER_ACTION_NEEDED) {
                    return Self::UserActionNeeded {
                        actions_needed: array_field(data, "actionsNeeded"),
                    };
                }
            },
            None => {},
        }
        Self::other(entry, code)
    }

    fn kyc_share_needed(data: Option<&Json>) -> (blocker: Self)
        ensures
            ({
                let data_view = match data {
                    Some(data) => Some(data@),
                    None => None,
                };
                blocker@ == BlockerView::KycShareNeeded {
                    tos_flow: field_of(data_view, "tosFlow"@),
                    needed_attributes: match field_of(data_view, "neededAttributes"@) {
                        Some(JsonView::Array(items)) => Some(strings_among(items)),
                        _ => None,
                    },
                    share_with_principals: strings_among(
                        array_field_of(data_view, "shareWithPrincipals"@),
                    ),
                    accepted_issuers: nullable(field_of(data_view, "acceptedIssuers"@)),
                }
            }),
    {
        let needed_attributes = match field(data, "neededAttributes") {
            Some(Json::Array(items)) => Some(strings(&items)),
            _ => None,
        };
        let share_with_principals = strings(&array_field(data, "shareWithPrincipals"));
        let accepted_issuers = match field(data, "acceptedIssuers") {
            Some(issuers) => issuers,
            None => Json::Null,
        };
        Self::KycShareNeeded {
            tos_flow: field(data, "tosFlow"),
            needed_attributes,
            share_with_principals,
            accepted_issuers,
        }
    }

    fn other(entry: &Json, code: Option<&str>) -> (blocker: Self)
        ensures
            blocker@ == (BlockerView::Other {
                name: text_or_empty(entry@, "name"@),
                code: match code {
                    Some(code) => Some(code@),
                    None => None,
                },
                message: text_or_empty(entry@, "error"@),
            }),
    {
        Self::Other {
            name: text_member(entry, "name"),
            code: match code {
                Some(code) => Some(code.to_owned()),
                None => None,
            },
            message: text_member(entry, "error"),
        }
    }

    /// The `type`-discriminated JSON of this blocker.
    pub fn to_json(&self) -> (document: Json)
        ensures
            document@ == self@.to_json(),
    {
        let mut members = no_members();
        match self {
            Self::KycShareNeeded {
                tos_flow,
                needed_attributes,
                share_with_principals,
                accepted_issuers,
            } => {
                let attributes = match needed_attributes {
                    Some(names) => text_array(names),
                    None => Json::Null,
                };
                members = put(members, "acceptedIssuers", accepted_issuers.clone());
                members = put(members, "neededAttributes", attributes);
                members = put(members, "shareWithPrincipals", text_array(share_with_principals));
                members = put(members, "tosFlow", clone_option(tos_flow));
                members = put(members, "type", Json::String("kycShareNeeded".to_owned()));
            },
            Self::AdditionalKycNeeded { to_complete_flow } => {
                members = put(members, "toCompleteFlow", clone_option(to_complete_flow));
                members = put(members, "type", Json::String("additionalKycNeeded".to_owned()));
            },
            Self::OperationNotSupported { for_asset, for_rail } => {
                members = put(members, "forAsset", clone_option(for_asset));
                members = put(members, "forRail", text_or_null(for_rail));
                members = put(members, "type", Json::String("operationNotSupported".to_owned()));
            },
            Self::UserActionNeeded { actions_needed } => {
                members = put(members, "actionsNeeded", Json::Array(clone_items(actions_needed)));
                members = put(members, "type", Json::String("userActionNeeded".to_owned()));
            },
            Self::Other { name, code, message } => {
                members = put(members, "code", text_or_null(code));
                members = put(members, "message", Json::String(message.clone()));
                members = put(members, "name", Json::String(name.clone()));
                members = put(members, "type", Json::String("other".to_owned()));
            },
        }
        Json::Object(members)
    }
}

/// The account's readiness to use an asset-movement provider.
#[derive(Debug, Clone, PartialEq, Eq)]
pub enum AccountStatus {
    /// The account is ready to proceed.
    Ready,
    /// The account must resolve one or more blockers first.
    ActionRequired {
        /// The blockers the account must resolve.
        blockers: Vec<AssetMovementBlocker>,
    },
}

/// The JSON of `blockers`, in order.
pub open spec fn blocker_documents(blockers: Seq<AssetMovementBlocker>) -> Seq<JsonView> {
    Seq::new(blockers.len(), |i: int| blockers[i]@.to_json())
}

/// The JSON of an account status.
pub open spec fn status_document(status: AccountStatus) -> JsonView {
    match status {
        AccountStatus::Ready => JsonView::Object(map!["actionRequired"@ => JsonView::Bool(false)]),
        AccountStatus::ActionRequired { blockers } => JsonView::Object(
            map![
                "actionRequired"@ => JsonView::Bool(true),
                "blockers"@ => JsonView::Array(blocker_documents(blockers@)),
            ],
        ),
    }
}

/// Projects an [`AccountStatus`] into its JSON output.
pub fn account_status_json(status: &AccountStatus) -> (document: Json)
    ensures
        document@ == status_document(*status),
{
    let mut members = no_members();
    match status {
        AccountStatus::Ready => {
            members = put(members, "actionRequired", Json::Bool(false));
        },
        AccountStatus::ActionRequired { blockers } => {
            let mut documents: Vec<Json> = Vec::new();
            let mut i: usize = 0;
            while i < blockers.len()
                invariant
                    i <= blockers@.len(),
                    documents@.len() == i,
                    forall|j: int| 0 <= j < i ==> documents@[j]@ == blockers@[j]@.to_json(),
                decreases blockers@.len() - i,
            {
                documents.push(blockers[i].to_json());
                i += 1;
            }
            assert(items_view(documents@) =~= blocker_documents(blockers@));
            members = put(members, "actionRequired", Json::Bool(true));
            members = put(members, "blockers", Json::Array(documents));
        },
    }
    Json::Object(members)
}

/// The JSON of an account status tells whether action is required, and has the blockers exactly where
/// it is.
pub proof fn law_status_tells_what_is_required(status: AccountStatus)
    ensures
        member(status_document(status), "actionRequired"@) == Some(
            JsonView::Bool(status is ActionRequired),
        ),
        match status {
            AccountStatus::Ready => member(status_document(status), "blockers"@) is None,
            AccountStatus::ActionRequired { blockers } => member(
                status_document(status),
                "blockers"@,
            ) == Some(JsonView::Array(blocker_documents(blockers@))),
        },
{
    reveal_strlit("actionRequired");
    reveal_strlit("blockers");
    assert("actionRequired"@.len() == 14);
    assert("blockers"@.len() == 8);
}

/// Whether `code` is the code of a known blocker.
pub open spec fn known_code(code: Seq<char>) -> bool {
    ||| code == KYC_SHARE_NEEDED@
    ||| code == ADDITIONAL_KYC_NEEDED@
    ||| code == OPERATION_NOT_SUPPORTED@
    ||| code == USER_ACTION_NEEDED@
}

impl BlockerView {
    /// Whether no optional document is `null`: absent ones are [`None`].
    pub open spec fn nulls_are_absent(self) -> bool {
        match self {
            BlockerView::KycShareNeeded { tos_flow, .. } => tos_flow != Some(JsonView::Null),
            BlockerView::AdditionalKycNeeded { to_complete_flow } => to_complete_flow != Some(
                JsonView::Null,
            ),
            BlockerView::OperationNotSupported { for_asset, .. } => for_asset != Some(
                JsonView::Null,
            ),
            _ => true,
        }
    }
}

/// A blocker is recognized exactly when its envelope has a known code, and it then has that code as
/// its transport code.
pub proof fn law_known_codes_are_recognized(entry: JsonView)
    ensures
        blocker_of(entry) is Other <==> !(text_of(member(entry, "code"@)) matches Some(code)
            && known_code(code)),
        !(blocker_of(entry) is Other) ==> blocker_of(entry).transport_code() == text_of(
            member(entry, "code"@),
        ),
{
}

/// An error with any other code keeps its name, its code and its message.
pub proof fn law_other_errors_are_kept_verbatim(
    entry: JsonView,
    name: Seq<char>,
    code: Seq<char>,
    message: Seq<char>,
)
    requires
        member(entry, "name"@) == Some(JsonView::String(name)),
        member(entry, "code"@) == Some(JsonView::String(code)),
        member(entry, "error"@) == Some(JsonView::String(message)),
        !known_code(code),
    ensures
        blocker_of(entry) == (BlockerView::Other { name, code: Some(code), message }),
{
}

/// Reading an envelope never gives a `null` for an optional document.
pub proof fn law_read_nulls_are_absent(entry: JsonView)
    ensures
        blocker_of(entry).nulls_are_absent(),
{
}

/// The names that the JSON of a blocker uses differ.
pub proof fn lemma_member_names_differ()
    ensures
        "type"@ != "tosFlow"@,
        "type"@ != "neededAttributes"@,
        "type"@ != "shareWithPrincipals"@,
        "type"@ != "acceptedIssuers"@,
        "tosFlow"@ != "neededAttributes"@,
        "tosFlow"@ != "shareWithPrincipals"@,
        "tosFlow"@ != "acceptedIssuers"@,
        "neededAttributes"@ != "shareWithPrincipals"@,
        "neededAttributes"@ != "acceptedIssuers"@,
        "shareWithPrincipals"@ != "acceptedIssuers"@,
        "type"@ != "toCompleteFlow"@,
        "type"@ != "forAsset"@,
        "type"@ != "forRail"@,
        "forAsset"@ != "forRail"@,
        "type"@ != "actionsNeeded"@,
        "type"@ != "name"@,
        "type"@ != "code"@,
        "type"@ != "message"@,
        "name"@ != "code"@,
        "name"@ != "message"@,
        "code"@ != "message"@,
{
    reveal_strlit("type");
    reveal_strlit("tosFlow");
    reveal_strlit("neededAttributes");
    reveal_strlit("shareWithPrincipals");
    reveal_strlit("acceptedIssuers");
    reveal_strlit("toCompleteFlow");
    reveal_strlit("forAsset");
    reveal_strlit("forRail");
    reveal_strlit("actionsNeeded");
    reveal_strlit("name");
    reveal_strlit("code");
    reveal_strlit("message");
    assert("type"@.len() == 4);
    assert("tosFlow"@.len() == 7);
    assert("neededAttributes"@.len() == 16);
    assert("shareWithPrincipals"@.len() == 19);
    assert("acceptedIssuers"@.len() == 15);
    assert("toCompleteFlow"@.len() == 14);
    assert("forAsset"@.len() == 8);
    assert("forRail"@.len() == 7);
    assert("actionsNeeded"@.len() == 13);
    assert("name"@.len() == 4);
    assert("code"@.len() == 4);
    assert("message"@.len() == 7);
    assert("type"@[0] == 't' && "name"@[0] == 'n' && "code"@[0] == 'c');
}

impl BlockerView {
    /// The `type` that the JSON of this blocker has.
    pub open spec fn discriminant(self) -> Seq<char> {
        match self {
            BlockerView::KycShareNeeded { .. } => "kycShareNeeded"@,
            BlockerView::AdditionalKycNeeded { .. } => "additionalKycNeeded"@,
            BlockerView::OperationNotSupported { .. } => "operationNotSupported"@,
            BlockerView::UserActionNeeded { .. } => "userActionNeeded"@,
            BlockerView::Other { .. } => "other"@,
        }
    }
}

/// The `type` member of a blocker's JSON tells its variant.
pub proof fn law_type_tells_the_variant(left: BlockerView, right: BlockerView)
    ensures
        member(left.to_json(), "type"@) == Some(JsonView::String(left.discriminant())),
        left.discriminant() == right.discriminant() ==> {
            &&& left is KycShareNeeded <==> right is KycShareNeeded
            &&& left is AdditionalKycNeeded <==> right is AdditionalKycNeeded
            &&& left is OperationNotSupported <==> right is OperationNotSupported
            &&& left is UserActionNeeded <==> right is UserActionNeeded
            &&& left is Other <==> right is Other
        },
{
    lemma_member_names_differ();
    reveal_strlit("kycShareNeeded");
    reveal_strlit("additionalKycNeeded");
    reveal_strlit("operationNotSupported");
    reveal_strlit("userActionNeeded");
    reveal_strlit("other");
    assert("kycShareNeeded"@.len() == 14);
    assert("additionalKycNeeded"@.len() == 19);
    assert("operationNotSupported"@.len() == 21);
    assert("userActionNeeded"@.len() == 16);
    assert("other"@.len() == 5);
}

/// Equal arrays of strings hold equal strings.
proof fn lemma_string_array_injective(left: Seq<Seq<char>>, right: Seq<Seq<char>>)
    requires
        string_array(left) == string_array(right),
    ensures
        left == right,
{
    let l = string_array(left)->Array_0;
    let r = string_array(right)->Array_0;
    assert(l.len() == r.len());
    assert forall|i: int| 0 <= i < left.len() implies left[i] == right[i] by {
        assert(l[i] == JsonView::String(left[i]));
        assert(r[i] == JsonView::String(right[i]));
    }
    assert(left =~= right);
}

/// The JSON of a blocker tells everything the blocker reports: two blockers with one JSON are one.
pub proof fn law_to_json_loses_nothing(left: BlockerView, right: BlockerView)
    requires
        left.nulls_are_absent(),
        right.nulls_are_absent(),
        left.to_json() == right.to_json(),
    ensures
        left == right,
{
    lemma_member_names_differ();
    law_type_tells_the_variant(left, right);
    law_type_tells_the_variant(right, left);
    assert(left.discriminant() == right.discriminant());
    let l = left.to_json()->Object_0;
    let r = right.to_json()->Object_0;
    match (left, right) {
        (
            BlockerView::KycShareNeeded {
                tos_flow: a,
                needed_attributes: b,
                share_with_principals: c,
                accepted_issuers: d,
            },
            BlockerView::KycShareNeeded {
                tos_flow: e,
                needed_attributes: f,
                share_with_principals: g,
                accepted_issuers: h,
            },
        ) => {
            assert(l["tosFlow"@] == nullable(a) && r["tosFlow"@] == nullable(e));
            assert(l["shareWithPrincipals"@] == string_array(c));
            assert(r["shareWithPrincipals"@] == string_array(g));
            lemma_string_array_injective(c, g);
            assert(l["acceptedIssuers"@] == d && r["acceptedIssuers"@] == h);
            let attributes = l["neededAttributes"@];
            assert(attributes == match b {
                Some(names) => string_array(names),
                None => JsonView::Null,
            });
            assert(attributes == match f {
                Some(names) => string_array(names),
                None => JsonView::Null,
            });
            if let (Some(names), Some(others)) = (b, f) {
                lemma_string_array_injective(names, others);
            }
        },
        (
            BlockerView::AdditionalKycNeeded { to_complete_flow: a },
            BlockerView::AdditionalKycNeeded { to_complete_flow: b },
        ) => {
            assert(l["toCompleteFlow"@] == nullable(a) && r["toCompleteFlow"@] == nullable(b));
        },
        (
            BlockerView::OperationNotSupported { for_asset: a, for_rail: b },
            BlockerView::OperationNotSupported { for_asset: c, for_rail: d },
        ) => {
            assert(l["forAsset"@] == nullable(a) && r["forAsset"@] == nullable(c));
            assert(l["forRail"@] == nullable_text(b) && r["forRail"@] == nullable_text(d));
        },
        (
            BlockerView::UserActionNeeded { actions_needed: a },
            BlockerView::UserActionNeeded { actions_needed: b },
        ) => {
            assert(l["actionsNeeded"@] == JsonView::Array(a));
            assert(r["actionsNeeded"@] == JsonView::Array(b));
        },
        (
            BlockerView::Other { name: a, code: b, message: c },
            BlockerView::Other { name: d, code: e, message: f },
        ) => {
            assert(l["name"@] == JsonView::String(a) && r["name"@] == JsonView::String(d));
            assert(l["code"@] == nullable_text(b) && r["code"@] == nullable_text(e));
            assert(l["message"@] == JsonView::String(c) && r["message"@] == JsonView::String(f));
        },
        _ => {},
    }
}

/// The strings among an array of strings are all of it.
proof fn lemma_strings_among_strings(texts: Seq<Seq<char>>)
    ensures
        strings_among(string_array(texts)->Array_0) == texts,
    decreases texts.len(),
{
    let items = string_array(texts)->Array_0;
    if texts.len() > 0 {
        let rest = texts.drop_last();
        lemma_strings_among_strings(rest);
        assert(items.drop_last() =~= string_array(rest)->Array_0);
        assert(items.last() == JsonView::String(texts.last()));
        assert(rest.push(texts.last()) =~= texts);
    } else {
        assert(strings_among(items) =~= texts);
    }
}

/// The known codes differ.
proof fn lemma_codes_differ()
    ensures
        KYC_SHARE_NEEDED@ != ADDITIONAL_KYC_NEEDED@,
        KYC_SHARE_NEEDED@ != OPERATION_NOT_SUPPORTED@,
        KYC_SHARE_NEEDED@ != USER_ACTION_NEEDED@,
        ADDITIONAL_KYC_NEEDED@ != OPERATION_NOT_SUPPORTED@,
        ADDITIONAL_KYC_NEEDED@ != USER_ACTION_NEEDED@,
        OPERATION_NOT_SUPPORTED@ != USER_ACTION_NEEDED@,
{
    reveal_strlit("KEETA_ANCHOR_ASSET_MOVEMENT_KYC_SHARE_NEEDED");
    reveal_strlit("KEETA_ANCHOR_ASSET_MOVEMENT_ADDITIONAL_KYC_NEEDED");
    reveal_strlit("KEETA_ANCHOR_ASSET_MOVEMENT_OPERATION_NOT_SUPPORTED");
    reveal_strlit("KEETA_ANCHOR_ASSET_MOVEMENT_USER_ACTION_NEEDED");
    assert(KYC_SHARE_NEEDED@.len() == 44);
    assert(ADDITIONAL_KYC_NEEDED@.len() == 49);
    assert(OPERATION_NOT_SUPPORTED@.len() == 51);
    assert(USER_ACTION_NEEDED@.len() == 46);
}

/// A recognized blocker comes back from an envelope that has its code, and its JSON as the data.
pub proof fn law_recognized_blockers_come_back(
    blocker: BlockerView,
    entry: JsonView,
    code: Seq<char>,
)
    requires
        blocker.nulls_are_absent(),
        blocker.transport_code() == Some(code),
        member(entry, "code"@) == Some(JsonView::String(code)),
        member(entry, "data"@) == Some(blocker.to_json()),
    ensures
        blocker_of(entry) == blocker,
{
    lemma_member_names_differ();
    lemma_codes_differ();
    if let BlockerView::KycShareNeeded { needed_attributes, share_with_principals, .. } = blocker {
        lemma_strings_among_strings(share_with_principals);
        if let Some(names) = needed_attributes {
            lemma_strings_among_strings(names);
        }
    }
}

} // verus!
