use vstd::prelude::*;

use crate::blocker::{
    account_status_json, status_document, strings_among, AccountStatus, AssetMovementBlocker,
};
use crate::json::{items_view, Json, JsonView};

verus! {

/// The text of the member `name` of the object `entry`, where it is a string.
pub open spec fn text_at(entry: JsonView, name: Seq<char>) -> Option<Seq<char>> {
    if entry is Object && entry->Object_0.contains_key(name)
        && entry->Object_0[name] is String {
        Some(entry->Object_0[name]->String_0)
    } else {
        None
    }
}

/// The member `name` of the object under `data` in `entry`, where there is one and it is not `null`.
pub open spec fn datum(entry: JsonView, name: Seq<char>) -> Option<JsonView> {
    if entry is Object && entry->Object_0.contains_key("data"@)
        && entry->Object_0["data"@] is Object
        && entry->Object_0["data"@]->Object_0.contains_key(name)
        && !(entry->Object_0["data"@]->Object_0[name] is Null) {
        Some(entry->Object_0["data"@]->Object_0[name])
    } else {
        None
    }
}

/// Whether `held` holds `told`, or nothing where nothing is told.
pub open spec fn holds(held: Option<Json>, told: Option<JsonView>) -> bool {
    &&& held is Some <==> told is Some
    &&& held is Some ==> held->0@ == told->0
}

/// Whether `texts` are the strings among `items`, and nothing else, in order.
pub open spec fn lists(texts: Seq<String>, items: Seq<JsonView>) -> bool {
    let strings = items.filter(|item: JsonView| item is String);
    &&& texts.len() == strings.len()
    &&& forall|i: int| 0 <= i < texts.len() ==> strings[i] == JsonView::String(
        (#[trigger] texts[i])@,
    )
}

/// Whether `code` is one that an anchor gives a typed blocker.
pub open spec fn typed(code: Option<Seq<char>>) -> bool {
    ||| code == Some("KEETA_ANCHOR_ASSET_MOVEMENT_KYC_SHARE_NEEDED"@)
    ||| code == Some("KEETA_ANCHOR_ASSET_MOVEMENT_ADDITIONAL_KYC_NEEDED"@)
    ||| code == Some("KEETA_ANCHOR_ASSET_MOVEMENT_OPERATION_NOT_SUPPORTED"@)
    ||| code == Some("KEETA_ANCHOR_ASSET_MOVEMENT_USER_ACTION_NEEDED"@)
}

/// Whether `blocker` is told by the error envelope `entry`: its variant by the code, and each of its
/// fields by the data.
pub open spec fn told(blocker: AssetMovementBlocker, entry: JsonView) -> bool {
    match blocker {
        AssetMovementBlocker::KycShareNeeded {
            tos_flow,
            needed_attributes,
            share_with_principals,
            accepted_issuers,
        } => {
            &&& text_at(entry, "code"@) == Some("KEETA_ANCHOR_ASSET_MOVEMENT_KYC_SHARE_NEEDED"@)
            &&& holds(tos_flow, datum(entry, "tosFlow"@))
            &&& needed_attributes is Some <==> datum(entry, "neededAttributes"@) is Some && datum(
                entry,
                "neededAttributes"@,
            )->0 is Array
            &&& needed_attributes is Some ==> lists(
                needed_attributes->0@,
                datum(entry, "neededAttributes"@)->0->Array_0,
            )
            &&& if datum(entry, "shareWithPrincipals"@) is Some && datum(
                entry,
                "shareWithPrincipals"@,
            )->0 is Array {
                lists(
                    share_with_principals@,
                    datum(entry, "shareWithPrincipals"@)->0->Array_0,
                )
            } else {
                share_with_principals@.len() == 0
            }
            &&& datum(entry, "acceptedIssuers"@) is None ==> accepted_issuers@ is Null
            &&& datum(entry, "acceptedIssuers"@) is Some ==> accepted_issuers@ == datum(
                entry,
                "acceptedIssuers"@,
            )->0
        },
        AssetMovementBlocker::AdditionalKycNeeded { to_complete_flow } => {
            &&& text_at(entry, "code"@) == Some(
                "KEETA_ANCHOR_ASSET_MOVEMENT_ADDITIONAL_KYC_NEEDED"@,
            )
            &&& holds(to_complete_flow, datum(entry, "toCompleteFlow"@))
        },
        AssetMovementBlocker::OperationNotSupported { for_asset, for_rail } => {
            &&& text_at(entry, "code"@) == Some(
                "KEETA_ANCHOR_ASSET_MOVEMENT_OPERATION_NOT_SUPPORTED"@,
            )
            &&& holds(for_asset, datum(entry, "forAsset"@))
            &&& for_rail is Some <==> datum(entry, "forRail"@) is Some && datum(
                entry,
                "forRail"@,
            )->0 is String
            &&& for_rail is Some ==> datum(entry, "forRail"@)->0 == JsonView::String(for_rail->0@)
        },
        AssetMovementBlocker::UserActionNeeded { actions_needed } => {
            &&& text_at(entry, "code"@) == Some("KEETA_ANCHOR_ASSET_MOVEMENT_USER_ACTION_NEEDED"@)
            &&& if datum(entry, "actionsNeeded"@) is Some && datum(
                entry,
                "actionsNeeded"@,
            )->0 is Array {
                let actions = datum(entry, "actionsNeeded"@)->0->Array_0;
                &&& actions_needed@.len() == actions.len()
                &&& forall|i: int|
                    0 <= i < actions.len() ==> (#[trigger] actions_needed@[i])@ == actions[i]
            } else {
                actions_needed@.len() == 0
            }
        },
        AssetMovementBlocker::Other { name, code, message } => {
            &&& !typed(text_at(entry, "code"@))
            &&& code is Some <==> text_at(entry, "code"@) is Some
            &&& code is Some ==> code->0@ == text_at(entry, "code"@)->0
            &&& text_at(entry, "name"@) is Some ==> name@ == text_at(entry, "name"@)->0
            &&& text_at(entry, "name"@) is None ==> name@.len() == 0
            &&& text_at(entry, "error"@) is Some ==> message@ == text_at(entry, "error"@)->0
            &&& text_at(entry, "error"@) is None ==> message@.len() == 0
        },
    }
}

proof fn lemma_strings_are_filtered(items: Seq<JsonView>)
    ensures
        ({
            let strings = items.filter(|item: JsonView| item is String);
            &&& strings_among(items).len() == strings.len()
            &&& forall|i: int|
                0 <= i < strings.len() ==> #[trigger] strings[i] == JsonView::String(
                    strings_among(items)[i],
                )
        }),
    decreases items.len(),
{
    reveal(Seq::filter);
    if items.len() > 0 {
        lemma_strings_are_filtered(items.drop_last());
    }
}

proof fn lemma_lists(texts: Seq<String>, items: Seq<JsonView>)
    requires
        crate::text::texts_view(texts) == strings_among(items),
    ensures
        lists(texts, items),
{
    lemma_strings_are_filtered(items);
    let strings = items.filter(|item: JsonView| item is String);
    assert forall|i: int| 0 <= i < texts.len() implies strings[i] == JsonView::String(
        (#[trigger] texts[i])@,
    ) by {
        assert(crate::text::texts_view(texts)[i] == strings_among(items)[i]);
    }
}

/// Whatever blocker has the contents that an envelope reports is told by it.
pub proof fn lemma_reported_is_told(blocker: AssetMovementBlocker, entry: JsonView)
    requires
        blocker@ == crate::blocker::blocker_of(entry),
    ensures
        told(blocker, entry),
{
    let none = Seq::<JsonView>::empty();
    match blocker {
        AssetMovementBlocker::KycShareNeeded { needed_attributes, share_with_principals, .. } => {
            if let Some(names) = needed_attributes {
                lemma_lists(names@, datum(entry, "neededAttributes"@)->0->Array_0);
            }
            if datum(entry, "shareWithPrincipals"@) is Some && datum(
                entry,
                "shareWithPrincipals"@,
            )->0 is Array {
                lemma_lists(
                    share_with_principals@,
                    datum(entry, "shareWithPrincipals"@)->0->Array_0,
                );
            } else {
                assert(strings_among(none).len() == 0);
                assert(crate::text::texts_view(share_with_principals@).len() == 0);
            }
        },
        AssetMovementBlocker::UserActionNeeded { actions_needed } => {
            let view = items_view(actions_needed@);
            assert(view.len() == actions_needed@.len());
            assert forall|i: int| 0 <= i < view.len() implies (#[trigger] actions_needed@[i])@
                == view[i] by {}
        },
        _ => {},
    }
}

/// The blocker read from an error envelope is told by it: each of the four known codes gives its own
/// variant, with every field that the data has, and only another code, or none, gives an error
/// without a type.
pub proof fn law_a_blocker_is_told_by_its_envelope(entry: Json, blocker: AssetMovementBlocker)
    requires
        call_ensures(AssetMovementBlocker::from_transport, (&entry,), blocker),
    ensures
        told(blocker, entry@),
{
    lemma_reported_is_told(blocker, entry@);
}

/// A blocker is recognized exactly when it has a transport code, which is that of its variant.
pub proof fn law_transport_codes(
    blocker: AssetMovementBlocker,
    code: Option<&'static str>,
    recognized: bool,
)
    requires
        call_ensures(AssetMovementBlocker::static_transport_code, (&blocker,), code),
        call_ensures(AssetMovementBlocker::is_recognized, (&blocker,), recognized),
    ensures
        recognized <==> code is Some,
        recognized <==> !(blocker is Other),
        blocker is KycShareNeeded ==> code->0@ == "KEETA_ANCHOR_ASSET_MOVEMENT_KYC_SHARE_NEEDED"@,
        blocker is AdditionalKycNeeded ==> code->0@
            == "KEETA_ANCHOR_ASSET_MOVEMENT_ADDITIONAL_KYC_NEEDED"@,
        blocker is OperationNotSupported ==> code->0@
            == "KEETA_ANCHOR_ASSET_MOVEMENT_OPERATION_NOT_SUPPORTED"@,
        blocker is UserActionNeeded ==> code->0@
            == "KEETA_ANCHOR_ASSET_MOVEMENT_USER_ACTION_NEEDED"@,
{
}

/// A blocker keeps the code of the envelope it was read from: reading and asking for the code are
/// inverse.
pub proof fn law_a_read_blocker_has_the_code_it_was_read_by(
    entry: Json,
    blocker: AssetMovementBlocker,
    code: Option<&'static str>,
)
    requires
        call_ensures(AssetMovementBlocker::from_transport, (&entry,), blocker),
        call_ensures(AssetMovementBlocker::static_transport_code, (&blocker,), code),
    ensures
        code is Some <==> typed(text_at(entry@, "code"@)),
        code is Some ==> code->0@ == text_at(entry@, "code"@)->0,
{
}

/// Whether `said` is what `held` holds, or `null`.
pub open spec fn shows(said: JsonView, held: Option<Json>) -> bool {
    &&& held is None ==> said == JsonView::Null
    &&& held is Some ==> said == held->0@
}

/// Whether `said` is what the text `held` is, or `null`.
pub open spec fn shows_text(said: JsonView, held: Option<String>) -> bool {
    &&& held is None ==> said == JsonView::Null
    &&& held is Some ==> said == JsonView::String(held->0@)
}

/// Whether `said` has the strings `texts`, one for one.
pub open spec fn shows_texts(said: JsonView, texts: Seq<String>) -> bool {
    &&& said is Array
    &&& said->Array_0.len() == texts.len()
    &&& forall|i: int|
        0 <= i < texts.len() ==> said->Array_0[i] == JsonView::String((#[trigger] texts[i])@)
}

/// Whether `said` shows `blocker` in full: under `type` its variant, and each field under its name.
pub open spec fn shown(said: Map<Seq<char>, JsonView>, blocker: AssetMovementBlocker) -> bool {
    match blocker {
        AssetMovementBlocker::KycShareNeeded {
            tos_flow,
            needed_attributes,
            share_with_principals,
            accepted_issuers,
        } => {
            &&& said.dom() == set![
                "type"@,
                "tosFlow"@,
                "neededAttributes"@,
                "shareWithPrincipals"@,
                "acceptedIssuers"@,
            ]
            &&& said["type"@] == JsonView::String("kycShareNeeded"@)
            &&& shows(said["tosFlow"@], tos_flow)
            &&& needed_attributes is None ==> said["neededAttributes"@] == JsonView::Null
            &&& needed_attributes is Some ==> shows_texts(
                said["neededAttributes"@],
                needed_attributes->0@,
            )
            &&& shows_texts(said["shareWithPrincipals"@], share_with_principals@)
            &&& said["acceptedIssuers"@] == accepted_issuers@
        },
        AssetMovementBlocker::AdditionalKycNeeded { to_complete_flow } => {
            &&& said.dom() == set!["type"@, "toCompleteFlow"@]
            &&& said["type"@] == JsonView::String("additionalKycNeeded"@)
            &&& shows(said["toCompleteFlow"@], to_complete_flow)
        },
        AssetMovementBlocker::OperationNotSupported { for_asset, for_rail } => {
            &&& said.dom() == set!["type"@, "forAsset"@, "forRail"@]
            &&& said["type"@] == JsonView::String("operationNotSupported"@)
            &&& shows(said["forAsset"@], for_asset)
            &&& shows_text(said["forRail"@], for_rail)
        },
        AssetMovementBlocker::UserActionNeeded { actions_needed } => {
            &&& said.dom() == set!["type"@, "actionsNeeded"@]
            &&& said["type"@] == JsonView::String("userActionNeeded"@)
            &&& said["actionsNeeded"@] is Array
            &&& said["actionsNeeded"@]->Array_0.len() == actions_needed@.len()
            &&& forall|i: int|
                0 <= i < actions_needed@.len() ==> said["actionsNeeded"@]->Array_0[i] == (
                #[trigger] actions_needed@[i])@
        },
        AssetMovementBlocker::Other { name, code, message } => {
            &&& said.dom() == set!["type"@, "name"@, "code"@, "message"@]
            &&& said["type"@] == JsonView::String("other"@)
            &&& said["name"@] == JsonView::String(name@)
            &&& shows_text(said["code"@], code)
            &&& said["message"@] == JsonView::String(message@)
        },
    }
}

/// The JSON of a blocker shows it in full, and nothing besides.
pub proof fn law_the_json_of_a_blocker_shows_it(blocker: AssetMovementBlocker, document: Json)
    requires
        call_ensures(AssetMovementBlocker::to_json, (&blocker,), document),
    ensures
        document@ is Object,
        shown(document@->Object_0, blocker),
{
    lemma_to_json_shows(blocker);
}

/// What a blocker's JSON says shows it in full.
pub proof fn lemma_to_json_shows(blocker: AssetMovementBlocker)
    ensures
        blocker@.to_json() is Object,
        shown(blocker@.to_json()->Object_0, blocker),
{
    crate::blocker::lemma_member_names_differ();
    let said = blocker@.to_json()->Object_0;
    match blocker {
        AssetMovementBlocker::KycShareNeeded { .. } => {
            assert(said.dom() =~= set![
                "type"@,
                "tosFlow"@,
                "neededAttributes"@,
                "shareWithPrincipals"@,
                "acceptedIssuers"@,
            ]);
        },
        AssetMovementBlocker::AdditionalKycNeeded { .. } => {
            assert(said.dom() =~= set!["type"@, "toCompleteFlow"@]);
        },
        AssetMovementBlocker::OperationNotSupported { .. } => {
            assert(said.dom() =~= set!["type"@, "forAsset"@, "forRail"@]);
        },
        AssetMovementBlocker::UserActionNeeded { actions_needed } => {
            assert(said.dom() =~= set!["type"@, "actionsNeeded"@]);
            assert(said["actionsNeeded"@]->Array_0 == items_view(actions_needed@));
        },
        AssetMovementBlocker::Other { .. } => {
            assert(said.dom() =~= set!["type"@, "name"@, "code"@, "message"@]);
        },
    }
}

/// Whether `said` tells an account status: whether action is required, and then every blocker in
/// its place and in full.
pub open spec fn status_told(said: Map<Seq<char>, JsonView>, status: AccountStatus) -> bool {
    match status {
        AccountStatus::Ready => said == map!["actionRequired"@ => JsonView::Bool(false)],
        AccountStatus::ActionRequired { blockers } => {
            &&& said.dom() == set!["actionRequired"@, "blockers"@]
            &&& said["actionRequired"@] == JsonView::Bool(true)
            &&& said["blockers"@] is Array
            &&& said["blockers"@]->Array_0.len() == blockers@.len()
            &&& forall|i: int|
                0 <= i < blockers@.len() ==> said["blockers"@]->Array_0[i] is Object && shown(
                    said["blockers"@]->Array_0[i]->Object_0,
                    #[trigger] blockers@[i],
                )
        },
    }
}

/// What an account status says tells it.
pub proof fn lemma_status_is_told(status: AccountStatus)
    ensures
        status_document(status) is Object,
        status_told(status_document(status)->Object_0, status),
{
    reveal_strlit("actionRequired");
    reveal_strlit("blockers");
    assert("actionRequired"@.len() == 14);
    assert("blockers"@.len() == 8);
    if let AccountStatus::ActionRequired { blockers } = status {
        let said = status_document(status)->Object_0;
        assert(said.dom() =~= set!["actionRequired"@, "blockers"@]);
        assert forall|i: int| 0 <= i < blockers@.len() implies said["blockers"@]->Array_0[i] is Object
            && shown(said["blockers"@]->Array_0[i]->Object_0, #[trigger] blockers@[i]) by {
            lemma_to_json_shows(blockers@[i]);
        }
    }
}

/// The JSON of an account status tells it: where action is required, it shows as many blockers as the
/// status has, each in its place and in full.
pub proof fn law_a_status_shows_every_blocker(status: AccountStatus, document: Json)
    requires
        call_ensures(account_status_json, (&status,), document),
    ensures
        document@ is Object,
        status_told(document@->Object_0, status),
{
    lemma_status_is_told(status);
}

/// What a status shows of a blocker is what the blocker shows of itself.
pub proof fn law_a_status_shows_blockers_as_they_show_themselves(
    blockers: Vec<AssetMovementBlocker>,
    document: Json,
    i: int,
    alone: Json,
)
    requires
        call_ensures(
            account_status_json,
            (&AccountStatus::ActionRequired { blockers },),
            document,
        ),
        0 <= i < blockers@.len(),
        call_ensures(AssetMovementBlocker::to_json, (&blockers@[i],), alone),
    ensures
        document@ is Object,
        document@->Object_0["blockers"@] is Array,
        document@->Object_0["blockers"@]->Array_0.len() == blockers@.len(),
        document@->Object_0["blockers"@]->Array_0[i] == alone@,
{
    reveal_strlit("actionRequired");
    reveal_strlit("blockers");
    assert("actionRequired"@.len() == 14);
    assert("blockers"@.len() == 8);
}

} // verus!
