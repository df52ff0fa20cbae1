//! The MQTT tabs of the selected request: the connection and publish forms, publishing, and
//! the subscriptions table.
use vstd::prelude::*;
use vstd::string::*;
use vstd::utf8::encode_utf8;
use crate::app_state::{App, AppEffect, RequestParamsTabs};
use crate::mqtt::{MqttRequest, MqttSubscription, MqttSubscriptionView, MqttVersion, QoS, qos_text, subscriptions_view, version_text};
use crate::payload::{MqttPayload, MqttPayloadView, boxed_bytes, next_payload_type, next_payload_type_of};
use crate::publish::{mqtt_publish, published};
use crate::request::{KeyValue, KeyValueView, Protocol, Request, key_values_view};
use crate::text::{bool_text, bool_to_text, decimal, decimal_text, join, join_lines, parse_unsigned, parse_unsigned_text, trim, trim_text};

verus! {

#[derive(Debug, Clone, Copy, PartialEq, Eq, Structural)]
pub enum MqttFormField {
    Version,
    ClientId,
    CleanSession,
    KeepAlive,
    MaxPacketSize,
    PublishTopic,
    PublishQoS,
    PublishRetain,
    PublishPayload,
}

pub open spec fn field_label(field: MqttFormField) -> Seq<char> {
    match field {
        MqttFormField::Version => "Version"@,
        MqttFormField::ClientId => "Client ID"@,
        MqttFormField::CleanSession => "Clean session"@,
        MqttFormField::KeepAlive => "Keep alive (s)"@,
        MqttFormField::MaxPacketSize => "Max packet size"@,
        MqttFormField::PublishTopic => "Topic"@,
        MqttFormField::PublishQoS => "QoS"@,
        MqttFormField::PublishRetain => "Retain"@,
        MqttFormField::PublishPayload => "Payload"@,
    }
}

/// The value a field shows for an MQTT request.
pub open spec fn field_value(field: MqttFormField, mqtt_request: MqttRequest) -> Seq<char> {
    match field {
        MqttFormField::Version => version_text(mqtt_request.version),
        MqttFormField::ClientId => mqtt_request.client_id@,
        MqttFormField::CleanSession => bool_text(mqtt_request.clean_session),
        MqttFormField::KeepAlive => decimal(mqtt_request.keep_alive as nat),
        MqttFormField::MaxPacketSize => decimal(mqtt_request.max_packet_size as nat),
        MqttFormField::PublishTopic => mqtt_request.publish.topic@,
        MqttFormField::PublishQoS => qos_text(mqtt_request.publish.qos),
        MqttFormField::PublishRetain => bool_text(mqtt_request.publish.retain),
        MqttFormField::PublishPayload => mqtt_request.payload@.content(),
    }
}

/// Fields edited with a text input, the others are cycled through
pub open spec fn field_is_text(field: MqttFormField) -> bool {
    field == MqttFormField::ClientId || field == MqttFormField::KeepAlive || field
        == MqttFormField::MaxPacketSize || field == MqttFormField::PublishTopic
}

impl MqttFormField {
    pub fn label(&self) -> (label: &'static str)
        ensures
            label@ == field_label(*self),
    {
        match self {
            MqttFormField::Version => "Version",
            MqttFormField::ClientId => "Client ID",
            MqttFormField::CleanSession => "Clean session",
            MqttFormField::KeepAlive => "Keep alive (s)",
            MqttFormField::MaxPacketSize => "Max packet size",
            MqttFormField::PublishTopic => "Topic",
            MqttFormField::PublishQoS => "QoS",
            MqttFormField::PublishRetain => "Retain",
            MqttFormField::PublishPayload => "Payload",
        }
    }

    pub fn value(&self, mqtt_request: &MqttRequest) -> (value: String)
        ensures
            value@ == field_value(*self, *mqtt_request),
    {
        match self {
            MqttFormField::Version => mqtt_request.version.to_string(),
            MqttFormField::ClientId => mqtt_request.client_id.clone(),
            MqttFormField::CleanSession => bool_to_text(mqtt_request.clean_session),
            MqttFormField::KeepAlive => decimal_text(mqtt_request.keep_alive as u128),
            MqttFormField::MaxPacketSize => decimal_text(mqtt_request.max_packet_size as u128),
            MqttFormField::PublishTopic => mqtt_request.publish.topic.clone(),
            MqttFormField::PublishQoS => mqtt_request.publish.qos.to_string(),
            MqttFormField::PublishRetain => bool_to_text(mqtt_request.publish.retain),
            MqttFormField::PublishPayload => mqtt_request.payload.to_content(),
        }
    }

    /// Fields edited with a text input, the others are cycled through
    pub fn is_text(&self) -> (is_text: bool)
        ensures
            is_text == field_is_text(*self),
    {
        match self {
            MqttFormField::ClientId | MqttFormField::KeepAlive | MqttFormField::MaxPacketSize
            | MqttFormField::PublishTopic => true,
            _ => false,
        }
    }
}

/// The fields of a tab, in the order they are selected.
pub open spec fn form_fields(tab: RequestParamsTabs) -> Seq<MqttFormField> {
    match tab {
        RequestParamsTabs::MqttConnection => seq![
            MqttFormField::Version,
            MqttFormField::CleanSession,
            MqttFormField::ClientId,
            MqttFormField::KeepAlive,
            MqttFormField::MaxPacketSize,
        ],
        RequestParamsTabs::MqttPublish => seq![
            MqttFormField::PublishTopic,
            MqttFormField::PublishQoS,
            MqttFormField::PublishRetain,
            MqttFormField::PublishPayload,
        ],
        _ => seq![],
    }
}

pub fn get_mqtt_form_fields(request_param_tab: RequestParamsTabs) -> (fields: Vec<MqttFormField>)
    ensures
        fields@ == form_fields(request_param_tab),
{
    let mut fields = Vec::new();
    match request_param_tab {
        RequestParamsTabs::MqttConnection => {
            fields.push(MqttFormField::Version);
            fields.push(MqttFormField::CleanSession);
            fields.push(MqttFormField::ClientId);
            fields.push(MqttFormField::KeepAlive);
            fields.push(MqttFormField::MaxPacketSize);
        },
        RequestParamsTabs::MqttPublish => {
            fields.push(MqttFormField::PublishTopic);
            fields.push(MqttFormField::PublishQoS);
            fields.push(MqttFormField::PublishRetain);
            fields.push(MqttFormField::PublishPayload);
        },
        _ => {},
    }
    assert(fields@ =~= form_fields(request_param_tab));
    fields
}

/// The QoS after `qos`, going forward or backward through 0, 1 and 2.
pub open spec fn next_qos_of(qos: QoS, forward: bool) -> QoS {
    match (qos, forward) {
        (QoS::AtMostOnce, true) | (QoS::ExactlyOnce, false) => QoS::AtLeastOnce,
        (QoS::AtLeastOnce, true) | (QoS::AtMostOnce, false) => QoS::ExactlyOnce,
        (QoS::ExactlyOnce, true) | (QoS::AtLeastOnce, false) => QoS::AtMostOnce,
    }
}

pub fn next_qos(qos: QoS, forward: bool) -> (next: QoS)
    ensures
        next == next_qos_of(qos, forward),
{
    match (qos, forward) {
        (QoS::AtMostOnce, true) | (QoS::ExactlyOnce, false) => QoS::AtLeastOnce,
        (QoS::AtLeastOnce, true) | (QoS::AtMostOnce, false) => QoS::ExactlyOnce,
        (QoS::ExactlyOnce, true) | (QoS::AtLeastOnce, false) => QoS::AtMostOnce,
    }
}

pub open spec fn qos_digit(qos: QoS) -> Seq<char> {
    match qos {
        QoS::AtMostOnce => "0"@,
        QoS::AtLeastOnce => "1"@,
        QoS::ExactlyOnce => "2"@,
    }
}

fn qos_to_digit(qos: QoS) -> (digit: String)
    ensures
        digit@ == qos_digit(qos),
{
    match qos {
        QoS::AtMostOnce => String::from_str("0"),
        QoS::AtLeastOnce => String::from_str("1"),
        QoS::ExactlyOnce => String::from_str("2"),
    }
}

/// The rows of the subscriptions table: topic and QoS digit.
pub open spec fn subscription_rows(subscriptions: Seq<MqttSubscriptionView>) -> Seq<KeyValueView> {
    subscriptions.map_values(
        |s: MqttSubscriptionView| KeyValueView { enabled: s.enabled, key: s.topic, value: qos_digit(s.qos) },
    )
}

pub fn subscriptions_to_rows(subscriptions: &[MqttSubscription]) -> (rows: Vec<KeyValue>)
    ensures
        key_values_view(rows@) == subscription_rows(subscriptions_view(subscriptions@)),
{
    let mut rows: Vec<KeyValue> = Vec::new();
    let mut i: usize = 0;
    while i < subscriptions.len()
        invariant
            i <= subscriptions@.len(),
            key_values_view(rows@) == subscription_rows(
                subscriptions_view(subscriptions@.subrange(0, i as int)),
            ),
        decreases subscriptions@.len() - i,
    {
        let subscription = &subscriptions[i];
        let ghost before = rows@;
        rows.push(
            KeyValue {
                enabled: subscription.enabled,
                data: (subscription.topic.clone(), qos_to_digit(subscription.qos)),
            },
        );
        assert(key_values_view(rows@) =~= key_values_view(before).push(
            KeyValueView {
                enabled: subscription.enabled,
                key: subscription.topic@,
                value: qos_digit(subscription.qos),
            },
        ));
        assert(subscriptions_view(subscriptions@.subrange(0, i + 1)) =~= subscriptions_view(
            subscriptions@.subrange(0, i as int),
        ).push(subscription@));
        i = i + 1;
    }
    assert(subscriptions@.subrange(0, subscriptions@.len() as int) =~= subscriptions@);
    rows
}

/* THE SELECTED REQUEST */

/// The MQTT request of a request that is one.
pub open spec fn mqtt_of(request: Request) -> MqttRequest {
    request.protocol->MqttRequest_0
}

/// The request with another MQTT request in it.
pub open spec fn with_mqtt(request: Request, mqtt_request: MqttRequest) -> Request {
    Request { protocol: Protocol::MqttRequest(mqtt_request), ..request }
}

/// The payload being edited, from the lines of the message text area: lines of text, or the
/// bytes of the lines written one after the other.
pub open spec fn edited_payload(payload: MqttPayloadView, lines: Seq<Seq<char>>) -> MqttPayloadView {
    match payload {
        MqttPayloadView::Text(_) => MqttPayloadView::Text(join(lines, "\n"@)),
        MqttPayloadView::Binary(_) => MqttPayloadView::Binary(encode_utf8(join(lines, ""@))),
    }
}

pub open spec fn lines_view(lines: Seq<String>) -> Seq<Seq<char>> {
    lines.map_values(|l: String| l@)
}

/// The selected form field, if the selection points at one of the tab's fields.
pub open spec fn selected_field(app: App) -> Option<MqttFormField> {
    let fields = form_fields(app.request_param_tab);
    if app.mqtt_form_selection < fields.len() {
        Some(fields[app.mqtt_form_selection as int])
    } else {
        None
    }
}

/// The MQTT request after cycling the value of a field; fields edited as text are unchanged.
pub open spec fn cycled(mqtt_request: MqttRequest, field: MqttFormField, forward: bool) -> MqttRequest {
    match field {
        MqttFormField::Version => MqttRequest {
            version: match mqtt_request.version {
                MqttVersion::V3_1_1 => MqttVersion::V5,
                MqttVersion::V5 => MqttVersion::V3_1_1,
            },
            ..mqtt_request
        },
        MqttFormField::CleanSession => MqttRequest {
            clean_session: !mqtt_request.clean_session,
            ..mqtt_request
        },
        MqttFormField::PublishQoS => MqttRequest {
            publish: crate::mqtt::MqttPublish {
                qos: next_qos_of(mqtt_request.publish.qos, forward),
                ..mqtt_request.publish
            },
            ..mqtt_request
        },
        MqttFormField::PublishRetain => MqttRequest {
            publish: crate::mqtt::MqttPublish {
                retain: !mqtt_request.publish.retain,
                ..mqtt_request.publish
            },
            ..mqtt_request
        },
        _ => mqtt_request,
    }
}

pub open spec fn is_cycled(field: MqttFormField) -> bool {
    field == MqttFormField::Version || field == MqttFormField::CleanSession || field
        == MqttFormField::PublishQoS || field == MqttFormField::PublishRetain
}

/// The MQTT request after a text field was edited with `input`: trimmed text, or a number
/// that the field accepts; anything else leaves the request as it was.
pub open spec fn modified(mqtt_request: MqttRequest, after: MqttRequest, field: MqttFormField, input: Seq<char>) -> bool {
    let text = trim(input);
    match field {
        MqttFormField::ClientId => after == (MqttRequest { client_id: after.client_id, ..mqtt_request })
            && after.client_id@ == text,
        MqttFormField::PublishTopic => after == (MqttRequest {
            publish: crate::mqtt::MqttPublish { topic: after.publish.topic, ..mqtt_request.publish },
            ..mqtt_request
        }) && after.publish.topic@ == text,
        MqttFormField::KeepAlive => match parse_unsigned(text, 65535) {
            Some(keep_alive) => after == (MqttRequest { keep_alive: keep_alive as u16, ..mqtt_request }),
            None => after == mqtt_request,
        },
        MqttFormField::MaxPacketSize => match parse_unsigned(text, u32::MAX as nat) {
            Some(size) => if size > 0 {
                after == (MqttRequest { max_packet_size: size as u32, ..mqtt_request })
            } else {
                after == mqtt_request
            },
            None => after == mqtt_request,
        },
        _ => after == mqtt_request,
    }
}

impl App {
    pub fn is_selected_request_mqtt(&self, request: &Request) -> (is_mqtt: bool)
        ensures
            is_mqtt == request.protocol is MqttRequest,
    {
        request.get_mqtt_request().is_ok()
    }

    pub fn get_selected_mqtt_form_field(&self) -> (field: Option<MqttFormField>)
        ensures
            field == selected_field(*self),
    {
        let fields = get_mqtt_form_fields(self.request_param_tab);
        if self.mqtt_form_selection < fields.len() {
            Some(fields[self.mqtt_form_selection])
        } else {
            None
        }
    }

    fn save_selected_collection(&mut self)
        requires
            old(self).selected_request is Some,
        ensures
            *final(self) == (App { effects: final(self).effects, ..*old(self) }),
            final(self).effects@ == old(self).effects@.push(
                AppEffect::SaveCollection(old(self).selected_request.unwrap().0),
            ),
    {
        let (collection_index, _) = self.selected_request.unwrap();
        self.effects.push(AppEffect::SaveCollection(collection_index));
    }

    /// Publishes the payload being edited to the publish topic, at `timestamp` (in
    /// milliseconds since the Unix epoch)
    pub fn tui_publish_mqtt_message(&mut self, request: &mut Request, timestamp: i64)
        requires
            old(request).protocol is MqttRequest,
        ensures
            ({
                let before = mqtt_of(*old(request));
                let payload = edited_payload(before.payload@, lines_view(old(self).message_text_area@));
                let after = mqtt_of(*final(request));
                &&& final(request).protocol is MqttRequest
                &&& *final(request) == with_mqtt(*old(request), after)
                &&& after.payload@ == payload
                &&& if before.is_connected {
                    &&& published(
                        MqttRequest { payload: after.payload, ..before },
                        after,
                        old(self).replaced(before.publish.topic@),
                        payload,
                        before.publish.qos,
                        before.publish.retain,
                        timestamp,
                    )
                    &&& *final(self) == (App {
                        received_response: true,
                        effects: final(self).effects,
                        ..*old(self)
                    })
                } else {
                    &&& after == (MqttRequest { payload: after.payload, ..before })
                    &&& *final(self) == (App { effects: final(self).effects, ..*old(self) })
                }
                &&& final(self).effects@ == old(self).effects@.push(AppEffect::SelectRequestState)
            }),
    {
        let mut is_connected = false;
        let mut publish_received = false;
        match &mut request.protocol {
            Protocol::MqttRequest(mqtt_request) => {
                let payload = match &mqtt_request.payload {
                    MqttPayload::Text(_) => MqttPayload::Text(join_lines(&self.message_text_area, "\n")),
                    MqttPayload::Binary(_) => {
                        let bytes = vstd::slice::slice_to_vec(
                            join_lines(&self.message_text_area, "").as_str().as_bytes(),
                        );
                        MqttPayload::Binary(boxed_bytes(bytes))
                    },
                };
                mqtt_request.payload = payload;
                if mqtt_request.is_connected {
                    is_connected = true;
                    let topic = self.replace_env_keys_by_value(&mqtt_request.publish.topic);
                    let payload = mqtt_request.payload.clone();
                    let (qos, retain) = (mqtt_request.publish.qos, mqtt_request.publish.retain);
                    mqtt_publish(mqtt_request, topic, payload, qos, retain, timestamp);
                    publish_received = true;
                }
            },
            _ => {},
        }
        if publish_received {
            self.received_response = true;
        }
        self.effects.push(AppEffect::SelectRequestState);
    }

    pub fn tui_next_mqtt_payload_type(&mut self, request: &mut Request)
        requires
            old(request).protocol is MqttRequest,
        ensures
            final(request).protocol is MqttRequest,
            *final(request) == with_mqtt(*old(request), mqtt_of(*final(request))),
            mqtt_of(*final(request)) == (MqttRequest {
                payload: mqtt_of(*final(request)).payload,
                ..mqtt_of(*old(request))
            }),
            mqtt_of(*final(request)).payload@ == next_payload_type_of(mqtt_of(*old(request)).payload@),
            *final(self) == (App { effects: final(self).effects, ..*old(self) }),
            final(self).effects@ == old(self).effects@.push(AppEffect::UpdateInputs),
    {
        match &mut request.protocol {
            Protocol::MqttRequest(mqtt_request) => {
                mqtt_request.payload = next_payload_type(&mqtt_request.payload);
            },
            _ => {},
        }
        self.effects.push(AppEffect::UpdateInputs);
    }

    /// Edits text fields, cycles through the values of the other ones
    pub fn tui_edit_mqtt_form_field(&mut self, request: &mut Request)
        requires
            selected_field(*old(self)) is Some ==> old(self).selected_request is Some
                && old(request).protocol is MqttRequest,
        ensures
            match selected_field(*old(self)) {
                None => *final(self) == *old(self) && *final(request) == *old(request),
                Some(MqttFormField::PublishPayload) => *final(request) == *old(request)
                    && *final(self) == (App { effects: final(self).effects, ..*old(self) })
                    && final(self).effects@ == old(self).effects@.push(
                    AppEffect::EditRequestMessageState,
                ),
                Some(field) => if field_is_text(field) {
                    *final(request) == *old(request) && *final(self) == (App {
                        effects: final(self).effects,
                        ..*old(self)
                    }) && final(self).effects@ == old(self).effects@.push(
                        AppEffect::EditMqttFormFieldState,
                    )
                } else {
                    *final(request) == with_mqtt(*old(request), cycled(mqtt_of(*old(request)), field, true))
                        && *final(self) == (App { effects: final(self).effects, ..*old(self) })
                        && final(self).effects@ == old(self).effects@.push(
                        AppEffect::SaveCollection(old(self).selected_request.unwrap().0),
                    ).push(AppEffect::UpdateInputs)
                },
            },
    {
        let field = match self.get_selected_mqtt_form_field() {
            Some(field) => field,
            None => return ,
        };

        match field {
            MqttFormField::PublishPayload => self.effects.push(AppEffect::EditRequestMessageState),
            _ => if field.is_text() {
                self.effects.push(AppEffect::EditMqttFormFieldState)
            } else {
                self.tui_change_mqtt_form_field_value(request, true)
            },
        }
    }

    pub fn tui_change_mqtt_form_field_value(&mut self, request: &mut Request, forward: bool)
        requires
            selected_field(*old(self)) is Some ==> old(self).selected_request is Some
                && old(request).protocol is MqttRequest,
        ensures
            match selected_field(*old(self)) {
                Some(field) if is_cycled(field) => *final(request) == with_mqtt(
                    *old(request),
                    cycled(mqtt_of(*old(request)), field, forward),
                ) && *final(self) == (App { effects: final(self).effects, ..*old(self) })
                    && final(self).effects@ == old(self).effects@.push(
                    AppEffect::SaveCollection(old(self).selected_request.unwrap().0),
                ).push(AppEffect::UpdateInputs),
                _ => *final(self) == *old(self) && *final(request) == *old(request),
            },
    {
        let field = match self.get_selected_mqtt_form_field() {
            Some(field) => field,
            None => return ,
        };

        let mut changed = false;
        match &mut request.protocol {
            Protocol::MqttRequest(mqtt_request) => {
                match field {
                    MqttFormField::Version => {
                        mqtt_request.version = match mqtt_request.version {
                            MqttVersion::V3_1_1 => MqttVersion::V5,
                            MqttVersion::V5 => MqttVersion::V3_1_1,
                        };
                        changed = true;
                    },
                    MqttFormField::CleanSession => {
                        mqtt_request.clean_session = !mqtt_request.clean_session;
                        changed = true;
                    },
                    MqttFormField::PublishQoS => {
                        mqtt_request.publish.qos = next_qos(mqtt_request.publish.qos, forward);
                        changed = true;
                    },
                    MqttFormField::PublishRetain => {
                        mqtt_request.publish.retain = !mqtt_request.publish.retain;
                        changed = true;
                    },
                    _ => {},
                }
            },
            _ => {},
        }
        if !changed {
            return ;
        }
        self.save_selected_collection();
        self.effects.push(AppEffect::UpdateInputs);
    }

    pub fn tui_modify_mqtt_form_field(&mut self, request: &mut Request)
        requires
            selected_field(*old(self)) is Some ==> old(self).selected_request is Some
                && old(request).protocol is MqttRequest,
        ensures
            match selected_field(*old(self)) {
                None => *final(self) == *old(self) && *final(request) == *old(request),
                Some(field) => {
                    &&& final(request).protocol is MqttRequest
                    &&& *final(request) == with_mqtt(*old(request), mqtt_of(*final(request)))
                    &&& modified(
                        mqtt_of(*old(request)),
                        mqtt_of(*final(request)),
                        field,
                        old(self).mqtt_form_text_input@,
                    )
                    &&& *final(self) == (App { effects: final(self).effects, ..*old(self) })
                    &&& final(self).effects@ == old(self).effects@.push(
                        AppEffect::SaveCollection(old(self).selected_request.unwrap().0),
                    ).push(AppEffect::SelectRequestState)
                },
            },
    {
        let field = match self.get_selected_mqtt_form_field() {
            Some(field) => field,
            None => return ,
        };

        let input_text = trim_text(self.mqtt_form_text_input.as_str());
        match &mut request.protocol {
            Protocol::MqttRequest(mqtt_request) => {
                match field {
                    MqttFormField::ClientId => mqtt_request.client_id = input_text,
                    MqttFormField::PublishTopic => mqtt_request.publish.topic = input_text,
                    MqttFormField::KeepAlive => match parse_unsigned_text(input_text.as_str(), 65535) {
                        Some(keep_alive) => {
                            mqtt_request.keep_alive = keep_alive as u16;
                        },
                        None => {},
                    },
                    MqttFormField::MaxPacketSize => match parse_unsigned_text(
                        input_text.as_str(),
                        0xFFFF_FFFF,
                    ) {
                        Some(max_packet_size) => if max_packet_size > 0 {
                            mqtt_request.max_packet_size = max_packet_size as u32;
                        },
                        None => {},
                    },
                    _ => {},
                }
            },
            _ => {},
        }

        self.save_selected_collection();
        self.effects.push(AppEffect::SelectRequestState);
    }
}

/* SUBSCRIPTIONS */

/// The request after its subscriptions became `subscriptions`, nothing else changed.
pub open spec fn subscriptions_became(before: Request, after: Request, subscriptions: Seq<MqttSubscriptionView>) -> bool {
    &&& after.protocol is MqttRequest
    &&& after == with_mqtt(before, mqtt_of(after))
    &&& mqtt_of(after) == (MqttRequest { subscriptions: mqtt_of(after).subscriptions, ..mqtt_of(before) })
    &&& subscriptions_view(mqtt_of(after).subscriptions@) == subscriptions
}

/// The selection of the subscriptions table for a request: the first row, if there is one.
pub open spec fn subscriptions_selection(request: Request) -> Option<(usize, usize)> {
    match request.protocol {
        Protocol::MqttRequest(mqtt_request) => if mqtt_request.subscriptions@.len() == 0 {
            None
        } else {
            Some((0usize, 0usize))
        },
        _ => None,
    }
}

/// The subscription that a new one starts as.
pub open spec fn new_subscription() -> MqttSubscriptionView {
    MqttSubscriptionView { enabled: true, topic: "topic/#"@, qos: QoS::AtMostOnce }
}

/// The selected row exists in the request's subscriptions, when a row is selected.
pub open spec fn selection_in_table(app: App, request: Request) -> bool {
    app.mqtt_subscriptions_selection matches Some((row, _)) ==> {
        &&& app.selected_request is Some
        &&& request.protocol is MqttRequest
        &&& row < mqtt_of(request).subscriptions@.len()
    }
}

impl App {
    pub fn tui_update_mqtt_subscriptions_selection(&mut self, request: &Request)
        ensures
            *final(self) == (App {
                mqtt_subscriptions_selection: subscriptions_selection(*request),
                ..*old(self)
            }),
    {
        let is_empty = match request.get_mqtt_request() {
            Ok(mqtt_request) => mqtt_request.subscriptions.is_empty(),
            Err(_) => true,
        };

        self.mqtt_subscriptions_selection = if is_empty {
            None
        } else {
            Some((0, 0))
        };
    }

    pub fn tui_create_mqtt_subscription(&mut self, request: &mut Request)
        requires
            old(self).selected_request is Some,
            old(request).protocol is MqttRequest,
        ensures
            subscriptions_became(
                *old(request),
                *final(request),
                subscriptions_view(mqtt_of(*old(request)).subscriptions@).push(new_subscription()),
            ),
            *final(self) == (App {
                mqtt_subscriptions_selection: Some((0usize, 0usize)),
                effects: final(self).effects,
                ..*old(self)
            }),
            final(self).effects@ == old(self).effects@.push(
                AppEffect::SaveCollection(old(self).selected_request.unwrap().0),
            ).push(AppEffect::UpdateInputs),
    {
        match &mut request.protocol {
            Protocol::MqttRequest(mqtt_request) => {
                let ghost before = subscriptions_view(mqtt_request.subscriptions@);
                mqtt_request.subscriptions.push(
                    MqttSubscription {
                        enabled: true,
                        topic: String::from_str("topic/#"),
                        qos: QoS::AtMostOnce,
                    },
                );
                assert(subscriptions_view(mqtt_request.subscriptions@) =~= before.push(
                    new_subscription(),
                ));
            },
            _ => {},
        }
        self.save_selected_collection();
        self.tui_update_mqtt_subscriptions_selection(request);
        self.effects.push(AppEffect::UpdateInputs);
    }

    pub fn tui_delete_mqtt_subscription(&mut self, request: &mut Request)
        requires
            selection_in_table(*old(self), *old(request)),
        ensures
            match old(self).mqtt_subscriptions_selection {
                None => *final(self) == *old(self) && *final(request) == *old(request),
                Some((row, _)) => {
                    &&& subscriptions_became(
                        *old(request),
                        *final(request),
                        subscriptions_view(mqtt_of(*old(request)).subscriptions@).remove(row as int),
                    )
                    &&& *final(self) == (App {
                        mqtt_subscriptions_selection: subscriptions_selection(*final(request)),
                        effects: final(self).effects,
                        ..*old(self)
                    })
                    &&& final(self).effects@ == old(self).effects@.push(
                        AppEffect::SaveCollection(old(self).selected_request.unwrap().0),
                    ).push(AppEffect::UpdateInputs)
                },
            },
    {
        let row = match self.mqtt_subscriptions_selection {
            Some((row, _)) => row,
            None => return ,
        };

        match &mut request.protocol {
            Protocol::MqttRequest(mqtt_request) => {
                let ghost before = mqtt_request.subscriptions@;
                let _ = mqtt_request.subscriptions.remove(row);
                assert(subscriptions_view(mqtt_request.subscriptions@) =~= subscriptions_view(
                    before,
                ).remove(row as int));
            },
            _ => {},
        }
        self.save_selected_collection();
        self.tui_update_mqtt_subscriptions_selection(request);
        self.effects.push(AppEffect::UpdateInputs);
    }

    pub fn tui_toggle_mqtt_subscription(&mut self, request: &mut Request)
        requires
            selection_in_table(*old(self), *old(request)),
        ensures
            match old(self).mqtt_subscriptions_selection {
                None => *final(self) == *old(self) && *final(request) == *old(request),
                Some((row, _)) => {
                    let subscriptions = subscriptions_view(mqtt_of(*old(request)).subscriptions@);
                    &&& subscriptions_became(
                        *old(request),
                        *final(request),
                        subscriptions.update(
                            row as int,
                            MqttSubscriptionView {
                                enabled: !subscriptions[row as int].enabled,
                                ..subscriptions[row as int]
                            },
                        ),
                    )
                    &&& *final(self) == (App { effects: final(self).effects, ..*old(self) })
                    &&& final(self).effects@ == old(self).effects@.push(
                        AppEffect::SaveCollection(old(self).selected_request.unwrap().0),
                    ).push(AppEffect::UpdateInputs)
                },
            },
    {
        let row = match self.mqtt_subscriptions_selection {
            Some((row, _)) => row,
            None => return ,
        };

        match &mut request.protocol {
            Protocol::MqttRequest(mqtt_request) => {
                let ghost before = mqtt_request.subscriptions@;
                let subscription = &mqtt_request.subscriptions[row];
                let toggled = MqttSubscription {
                    enabled: !subscription.enabled,
                    topic: subscription.topic.clone(),
                    qos: subscription.qos,
                };
                mqtt_request.subscriptions.set(row, toggled);
                assert(subscriptions_view(mqtt_request.subscriptions@) =~= subscriptions_view(
                    before,
                ).update(
                    row as int,
                    MqttSubscriptionView { enabled: !before[row as int].enabled, ..before[row as int]@ },
                ));
            },
            _ => {},
        }
        self.save_selected_collection();
        self.effects.push(AppEffect::UpdateInputs);
    }

    pub fn tui_duplicate_mqtt_subscription(&mut self, request: &mut Request)
        requires
            selection_in_table(*old(self), *old(request)),
        ensures
            match old(self).mqtt_subscriptions_selection {
                None => *final(self) == *old(self) && *final(request) == *old(request),
                Some((row, _)) => {
                    let subscriptions = subscriptions_view(mqtt_of(*old(request)).subscriptions@);
                    &&& subscriptions_became(
                        *old(request),
                        *final(request),
                        subscriptions.insert(row + 1, subscriptions[row as int]),
                    )
                    &&& *final(self) == (App { effects: final(self).effects, ..*old(self) })
                    &&& final(self).effects@ == old(self).effects@.push(
                        AppEffect::SaveCollection(old(self).selected_request.unwrap().0),
                    ).push(AppEffect::UpdateInputs)
                },
            },
    {
        let row = match self.mqtt_subscriptions_selection {
            Some((row, _)) => row,
            None => return ,
        };

        match &mut request.protocol {
            Protocol::MqttRequest(mqtt_request) => {
                let ghost before = mqtt_request.subscriptions@;
                let subscription = mqtt_request.subscriptions[row].clone();
                let _len = mqtt_request.subscriptions.len();
                mqtt_request.subscriptions.insert(row + 1, subscription);
                assert(subscriptions_view(mqtt_request.subscriptions@) =~= subscriptions_view(
                    before,
                ).insert(row + 1, before[row as int]@));
            },
            _ => {},
        }
        self.save_selected_collection();
        self.effects.push(AppEffect::UpdateInputs);
    }

    pub fn tui_next_mqtt_subscription_qos(&mut self, request: &mut Request)
        requires
            selection_in_table(*old(self), *old(request)),
        ensures
            match old(self).mqtt_subscriptions_selection {
                None => *final(self) == *old(self) && *final(request) == *old(request),
                Some((row, _)) => {
                    let subscriptions = subscriptions_view(mqtt_of(*old(request)).subscriptions@);
                    &&& subscriptions_became(
                        *old(request),
                        *final(request),
                        subscriptions.update(
                            row as int,
                            MqttSubscriptionView {
                                qos: next_qos_of(subscriptions[row as int].qos, true),
                                ..subscriptions[row as int]
                            },
                        ),
                    )
                    &&& *final(self) == (App { effects: final(self).effects, ..*old(self) })
                    &&& final(self).effects@ == old(self).effects@.push(
                        AppEffect::SaveCollection(old(self).selected_request.unwrap().0),
                    ).push(AppEffect::UpdateInputs)
                },
            },
    {
        let row = match self.mqtt_subscriptions_selection {
            Some((row, _)) => row,
            None => return ,
        };

        match &mut request.protocol {
            Protocol::MqttRequest(mqtt_request) => {
                let ghost before = mqtt_request.subscriptions@;
                let subscription = &mqtt_request.subscriptions[row];
                let changed = MqttSubscription {
                    enabled: subscription.enabled,
                    topic: subscription.topic.clone(),
                    qos: next_qos(subscription.qos, true),
                };
                mqtt_request.subscriptions.set(row, changed);
                assert(subscriptions_view(mqtt_request.subscriptions@) =~= subscriptions_view(
                    before,
                ).update(
                    row as int,
                    MqttSubscriptionView {
                        qos: next_qos_of(before[row as int].qos, true),
                        ..before[row as int]@
                    },
                ));
            },
            _ => {},
        }
        self.save_selected_collection();
        self.effects.push(AppEffect::UpdateInputs);
    }

    pub fn tui_modify_mqtt_subscription(&mut self, request: &mut Request)
        requires
            selection_in_table(*old(self), *old(request)),
        ensures
            match old(self).mqtt_subscriptions_selection {
                None => *final(self) == *old(self) && *final(request) == *old(request),
                Some((row, column)) => {
                    let subscriptions = subscriptions_view(mqtt_of(*old(request)).subscriptions@);
                    &&& subscriptions_became(
                        *old(request),
                        *final(request),
                        if column == 0 {
                            subscriptions.update(
                                row as int,
                                MqttSubscriptionView {
                                    topic: trim(old(self).mqtt_subscriptions_text_input@),
                                    ..subscriptions[row as int]
                                },
                            )
                        } else {
                            subscriptions
                        },
                    )
                    &&& *final(self) == (App { effects: final(self).effects, ..*old(self) })
                    &&& final(self).effects@ == old(self).effects@.push(
                        AppEffect::SaveCollection(old(self).selected_request.unwrap().0),
                    ).push(AppEffect::SelectRequestState)
                },
            },
    {
        let (row, column) = match self.mqtt_subscriptions_selection {
            Some(selection) => selection,
            None => return ,
        };

        let input_text = trim_text(self.mqtt_subscriptions_text_input.as_str());

        match &mut request.protocol {
            Protocol::MqttRequest(mqtt_request) => {
                let ghost before = mqtt_request.subscriptions@;
                if column == 0 {
                    let subscription = &mqtt_request.subscriptions[row];
                    let changed = MqttSubscription {
                        enabled: subscription.enabled,
                        topic: input_text,
                        qos: subscription.qos,
                    };
                    mqtt_request.subscriptions.set(row, changed);
                    assert(subscriptions_view(mqtt_request.subscriptions@) =~= subscriptions_view(
                        before,
                    ).update(
                        row as int,
                        MqttSubscriptionView {
                            topic: trim(self.mqtt_subscriptions_text_input@),
                            ..before[row as int]@
                        },
                    ));
                }
            },
            _ => {},
        }
        self.save_selected_collection();
        self.effects.push(AppEffect::SelectRequestState);
    }
}

/// Cycling a QoS always changes it; forward then backward, or backward then forward, gives it
/// back, and going forward (or backward) three times comes back to it.
pub proof fn lemma_next_qos_inverse(qos: QoS)
    ensures
        next_qos_of(qos, true) != qos,
        next_qos_of(qos, false) != qos,
        next_qos_of(next_qos_of(next_qos_of(qos, false), false), false) == qos,
        next_qos_of(next_qos_of(qos, true), false) == qos,
        next_qos_of(next_qos_of(qos, false), true) == qos,
        next_qos_of(next_qos_of(next_qos_of(qos, true), true), true) == qos,
{
}

/// Cycling a field twice in opposite directions, or a version, clean session or retain flag
/// twice in any direction, gives the MQTT request back.
pub proof fn lemma_cycling_twice_gives_back(mqtt_request: MqttRequest, field: MqttFormField, forward: bool)
    ensures
        cycled(cycled(mqtt_request, field, forward), field, !forward) == mqtt_request,
        field != MqttFormField::PublishQoS ==> cycled(cycled(mqtt_request, field, forward), field, forward)
            == mqtt_request,
{
    lemma_next_qos_inverse(mqtt_request.publish.qos);
}

/// Cycling a form field changes what that field shows and nothing else: every other field of
/// the connection and publish forms shows the same value, and the rest of the MQTT request
/// (session expiry, subscriptions, messages, payload, connection) is kept. Fields edited as
/// text are not cycled at all.
pub proof fn lemma_cycling_changes_only_its_field(mqtt_request: MqttRequest, field: MqttFormField, forward: bool)
    ensures
        is_cycled(field) ==> field_value(field, cycled(mqtt_request, field, forward)) != field_value(
            field,
            mqtt_request,
        ),
        forall|other: MqttFormField|
            other != field ==> #[trigger] field_value(other, cycled(mqtt_request, field, forward))
                == field_value(other, mqtt_request),
        !is_cycled(field) ==> cycled(mqtt_request, field, forward) == mqtt_request,
        cycled(mqtt_request, field, forward).session_expiry_interval == mqtt_request.session_expiry_interval,
        cycled(mqtt_request, field, forward).subscriptions == mqtt_request.subscriptions,
        cycled(mqtt_request, field, forward).messages == mqtt_request.messages,
        cycled(mqtt_request, field, forward).payload == mqtt_request.payload,
        cycled(mqtt_request, field, forward).connection == mqtt_request.connection,
        cycled(mqtt_request, field, forward).is_connected == mqtt_request.is_connected,
        cycled(mqtt_request, field, forward).broker_max_packet_size == mqtt_request.broker_max_packet_size,
{
    reveal_strlit("3.1.1");
    reveal_strlit("5");
    reveal_strlit("QoS 0");
    reveal_strlit("QoS 1");
    reveal_strlit("QoS 2");
    let after = cycled(mqtt_request, field, forward);
    if field == MqttFormField::Version {
        assert(version_text(after.version).len() != version_text(mqtt_request.version).len());
    } else if field == MqttFormField::CleanSession {
        assert(bool_text(after.clean_session).len() != bool_text(mqtt_request.clean_session).len());
    } else if field == MqttFormField::PublishRetain {
        assert(bool_text(after.publish.retain).len() != bool_text(mqtt_request.publish.retain).len());
    } else if field == MqttFormField::PublishQoS {
        assert(qos_text(after.publish.qos)[4] != qos_text(mqtt_request.publish.qos)[4]);
    }
}

} // verus!
