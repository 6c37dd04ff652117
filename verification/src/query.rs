use vstd::prelude::*;
use crate::domain::{opt_view, RtcProviderQueryRequest, RtcProviderQueryResult};
use crate::json::{json_text, json_view, to_json_text, JsonMember, JsonValue, JsonView};
use crate::text::owned;
use crate::webhook::{member, text_or_null, text_or_null_value};

verus! {

/// The result of an active query of `provider` that answers `request` with the given
/// status, provider action and snapshot text.
pub open spec fn query_result_fields(
    r: RtcProviderQueryResult,
    provider: Seq<char>,
    request: RtcProviderQueryRequest,
    status: Seq<char>,
    action: Seq<char>,
    snapshot: Seq<char>,
) -> bool {
    &&& r.provider@ == provider
    &&& opt_view(r.provider_profile_id) == opt_view(request.provider_profile_id)
    &&& r.query_kind == request.query_kind
    &&& opt_view(r.room_id) == opt_view(request.room_id)
    &&& opt_view(r.rtc_session_id) == opt_view(request.rtc_session_id)
    &&& opt_view(r.provider_session_id) == opt_view(request.provider_session_id)
    &&& r.status@ == status
    &&& r.raw_provider_action@ == action
    &&& r.result_snapshot_json@ == snapshot
    &&& opt_view(r.next_cursor) == opt_view(request.cursor)
}

/// Assembles the result of an active query from the request it answers.
pub fn query_result(
    provider: &str,
    request: RtcProviderQueryRequest,
    status: String,
    action: &str,
    result_snapshot_json: String,
    queried_at: String,
) -> (res: RtcProviderQueryResult)
    ensures
        query_result_fields(res, provider@, request, status@, action@, result_snapshot_json@),
        res.queried_at@ == queried_at@,
{
    RtcProviderQueryResult {
        provider: owned(provider),
        provider_profile_id: request.provider_profile_id,
        query_kind: request.query_kind,
        room_id: request.room_id,
        rtc_session_id: request.rtc_session_id,
        provider_session_id: request.provider_session_id,
        status,
        raw_provider_action: owned(action),
        result_snapshot_json,
        next_cursor: request.cursor,
        queried_at,
    }
}

/// The snapshot of an active query that no provider executor served.
pub open spec fn unconfigured_snapshot(
    provider: Seq<char>,
    action: Seq<char>,
    request: RtcProviderQueryRequest,
    region: Seq<char>,
) -> JsonView {
    JsonView::Object(
        seq![
            ("provider"@, JsonView::Str(provider)),
            ("action"@, JsonView::Str(action)),
            ("roomId"@, text_or_null(opt_view(request.room_id))),
            ("rtcSessionId"@, text_or_null(opt_view(request.rtc_session_id))),
            ("providerSessionId"@, text_or_null(opt_view(request.provider_session_id))),
            ("region"@, JsonView::Str(region)),
            ("execution"@, JsonView::Str("provider_executor_not_configured"@)),
        ],
    )
}

/// Writes the snapshot of an active query that no provider executor served.
pub fn unconfigured_snapshot_json(
    provider: &str,
    action: &str,
    request: &RtcProviderQueryRequest,
    region: &str,
) -> (res: String)
    ensures
        res@ == json_text(unconfigured_snapshot(provider@, action@, *request, region@)),
{
    let mut members: Vec<JsonMember> = Vec::new();
    members.push(member("provider", JsonValue::Str(owned(provider))));
    members.push(member("action", JsonValue::Str(owned(action))));
    members.push(member("roomId", text_or_null_value(&request.room_id)));
    members.push(member("rtcSessionId", text_or_null_value(&request.rtc_session_id)));
    members.push(member("providerSessionId", text_or_null_value(&request.provider_session_id)));
    members.push(member("region", JsonValue::Str(owned(region))));
    members.push(member("execution", JsonValue::Str(owned("provider_executor_not_configured"))));
    let value = JsonValue::Object(members);
    proof {
        let target = unconfigured_snapshot(provider@, action@, *request, region@);
        let ms = match value@ {
            JsonView::Object(ms) => ms,
            _ => Seq::empty(),
        };
        let ts = match target {
            JsonView::Object(ts) => ts,
            _ => Seq::empty(),
        };
        assert(ms.len() == 7);
        assert forall|k: int| 0 <= k < 7 implies ms[k] == ts[k] by {
            assert(ms[k] == (members@[k].key@, json_view(members@[k].value)));
        }
        assert(ms =~= ts);
    }
    to_json_text(&value)
}

} // verus!
