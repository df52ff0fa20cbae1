//! The parameter tabs of the selected request: which tabs a protocol shows, in which order,
//! and what loading one does.
use vstd::prelude::*;
use crate::app_state::{App, AppEffect, RequestParamsTabs};
use crate::request::{Protocol, Request};

verus! {

/// Whether the protocol shows the tab.
pub open spec fn tab_shown(protocol: Protocol, tab: RequestParamsTabs) -> bool {
    match protocol {
        Protocol::HttpRequest(_) => match tab {
            RequestParamsTabs::QueryParams | RequestParamsTabs::Auth | RequestParamsTabs::Headers
            | RequestParamsTabs::Body | RequestParamsTabs::Scripts => true,
            _ => false,
        },
        Protocol::WsRequest(_) => match tab {
            RequestParamsTabs::QueryParams | RequestParamsTabs::Auth | RequestParamsTabs::Headers
            | RequestParamsTabs::Message | RequestParamsTabs::Scripts => true,
            _ => false,
        },
        Protocol::MqttRequest(_) => match tab {
            RequestParamsTabs::Auth | RequestParamsTabs::MqttConnection
            | RequestParamsTabs::MqttSubscriptions | RequestParamsTabs::MqttPublish
            | RequestParamsTabs::Scripts => true,
            _ => false,
        },
    }
}

/// The tab after `tab`, for a tab the protocol shows.
pub open spec fn next_tab(protocol: Protocol, tab: RequestParamsTabs) -> RequestParamsTabs {
    match protocol {
        Protocol::HttpRequest(_) => match tab {
            RequestParamsTabs::QueryParams => RequestParamsTabs::Auth,
            RequestParamsTabs::Auth => RequestParamsTabs::Headers,
            RequestParamsTabs::Headers => RequestParamsTabs::Body,
            RequestParamsTabs::Body => RequestParamsTabs::Scripts,
            _ => RequestParamsTabs::QueryParams,
        },
        Protocol::WsRequest(_) => match tab {
            RequestParamsTabs::QueryParams => RequestParamsTabs::Auth,
            RequestParamsTabs::Auth => RequestParamsTabs::Headers,
            RequestParamsTabs::Headers => RequestParamsTabs::Message,
            RequestParamsTabs::Message => RequestParamsTabs::Scripts,
            _ => RequestParamsTabs::QueryParams,
        },
        Protocol::MqttRequest(_) => match tab {
            RequestParamsTabs::Auth => RequestParamsTabs::MqttConnection,
            RequestParamsTabs::MqttConnection => RequestParamsTabs::MqttSubscriptions,
            RequestParamsTabs::MqttSubscriptions => RequestParamsTabs::MqttPublish,
            RequestParamsTabs::MqttPublish => RequestParamsTabs::Scripts,
            _ => RequestParamsTabs::Auth,
        },
    }
}

pub open spec fn is_mqtt_tab(tab: RequestParamsTabs) -> bool {
    tab == RequestParamsTabs::MqttConnection || tab == RequestParamsTabs::MqttSubscriptions || tab
        == RequestParamsTabs::MqttPublish
}

/// The tab to show once the selected request is known: tabs of another protocol give way to
/// the protocol's first tab.
pub open spec fn updated_tab(protocol: Protocol, tab: RequestParamsTabs) -> RequestParamsTabs {
    match protocol {
        Protocol::HttpRequest(_) => if is_mqtt_tab(tab) || tab == RequestParamsTabs::Message {
            RequestParamsTabs::QueryParams
        } else {
            tab
        },
        Protocol::WsRequest(_) => if is_mqtt_tab(tab) || tab == RequestParamsTabs::Body {
            RequestParamsTabs::QueryParams
        } else {
            tab
        },
        Protocol::MqttRequest(_) => if tab == RequestParamsTabs::QueryParams || tab
            == RequestParamsTabs::Headers || tab == RequestParamsTabs::Body || tab
            == RequestParamsTabs::Message {
            RequestParamsTabs::MqttConnection
        } else {
            tab
        },
    }
}

/// The app after loading its current tab.
pub open spec fn tab_loaded(before: App, after: App) -> bool {
    match before.request_param_tab {
        RequestParamsTabs::QueryParams => after == (App {
            effects: after.effects,
            ..before
        }) && after.effects@ == before.effects@.push(AppEffect::UpdateQueryParamsSelection).push(
            AppEffect::UpdateInputs,
        ),
        RequestParamsTabs::Auth => after == (App {
            effects: after.effects,
            auth_text_input_selection: 0,
            ..before
        }) && after.effects@ == before.effects@.push(AppEffect::UpdateInputs),
        RequestParamsTabs::Headers => after == (App {
            effects: after.effects,
            ..before
        }) && after.effects@ == before.effects@.push(AppEffect::UpdateHeadersSelection).push(
            AppEffect::UpdateInputs,
        ),
        RequestParamsTabs::Body | RequestParamsTabs::Message => after == (App {
            effects: after.effects,
            ..before
        }) && after.effects@ == before.effects@.push(AppEffect::UpdateInputs),
        RequestParamsTabs::MqttConnection | RequestParamsTabs::MqttSubscriptions
        | RequestParamsTabs::MqttPublish => after == (App {
            effects: after.effects,
            mqtt_form_selection: 0,
            ..before
        }) && after.effects@ == before.effects@.push(AppEffect::UpdateInputs),
        RequestParamsTabs::Scripts => after == before,
    }
}

impl App {
    pub fn tui_next_request_param_tab(&mut self, request: &Request)
        requires
            tab_shown(request.protocol, old(self).request_param_tab),
        ensures
            tab_loaded(
                App {
                    request_param_tab: next_tab(request.protocol, old(self).request_param_tab),
                    ..*old(self)
                },
                *final(self),
            ),
    {
        self.request_param_tab = match &request.protocol {
            Protocol::HttpRequest(_) => match self.request_param_tab {
                RequestParamsTabs::QueryParams => RequestParamsTabs::Auth,
                RequestParamsTabs::Auth => RequestParamsTabs::Headers,
                RequestParamsTabs::Headers => RequestParamsTabs::Body,
                RequestParamsTabs::Body => RequestParamsTabs::Scripts,
                _ => RequestParamsTabs::QueryParams,
            },
            Protocol::WsRequest(_) => match self.request_param_tab {
                RequestParamsTabs::QueryParams => RequestParamsTabs::Auth,
                RequestParamsTabs::Auth => RequestParamsTabs::Headers,
                RequestParamsTabs::Headers => RequestParamsTabs::Message,
                RequestParamsTabs::Message => RequestParamsTabs::Scripts,
                _ => RequestParamsTabs::QueryParams,
            },
            Protocol::MqttRequest(_) => match self.request_param_tab {
                RequestParamsTabs::Auth => RequestParamsTabs::MqttConnection,
                RequestParamsTabs::MqttConnection => RequestParamsTabs::MqttSubscriptions,
                RequestParamsTabs::MqttSubscriptions => RequestParamsTabs::MqttPublish,
                RequestParamsTabs::MqttPublish => RequestParamsTabs::Scripts,
                _ => RequestParamsTabs::Auth,
            },
        };

        self.tui_load_a_request_param_tab();
    }

    pub fn tui_update_request_param_tab(&mut self, request: &Request)
        ensures
            *final(self) == (App {
                request_param_tab: updated_tab(request.protocol, old(self).request_param_tab),
                ..*old(self)
            }),
    {
        let is_mqtt_tab = match self.request_param_tab {
            RequestParamsTabs::MqttConnection | RequestParamsTabs::MqttSubscriptions
            | RequestParamsTabs::MqttPublish => true,
            _ => false,
        };

        match &request.protocol {
            Protocol::HttpRequest(_) => if is_mqtt_tab || self.request_param_tab
                == RequestParamsTabs::Message {
                self.request_param_tab = RequestParamsTabs::QueryParams;
            },
            Protocol::WsRequest(_) => if is_mqtt_tab || self.request_param_tab
                == RequestParamsTabs::Body {
                self.request_param_tab = RequestParamsTabs::QueryParams;
            },
            Protocol::MqttRequest(_) => match self.request_param_tab {
                RequestParamsTabs::QueryParams | RequestParamsTabs::Headers
                | RequestParamsTabs::Body | RequestParamsTabs::Message => {
                    self.request_param_tab = RequestParamsTabs::MqttConnection;
                },
                _ => {},
            },
        }
    }

    pub fn tui_load_a_request_param_tab(&mut self)
        ensures
            tab_loaded(*old(self), *final(self)),
    {
        match self.request_param_tab {
            RequestParamsTabs::QueryParams => self.tui_load_request_query_params_tab(),
            RequestParamsTabs::Auth => self.tui_load_request_auth_param_tab(),
            RequestParamsTabs::Headers => self.tui_load_request_headers_tab(),
            RequestParamsTabs::Body => self.tui_load_request_body_param_tab(),
            RequestParamsTabs::Message => self.tui_load_request_message_param_tab(),
            RequestParamsTabs::MqttConnection | RequestParamsTabs::MqttSubscriptions
            | RequestParamsTabs::MqttPublish => {
                let tab = self.request_param_tab;
                self.tui_load_request_mqtt_tab(tab)
            },
            RequestParamsTabs::Scripts => {},
        }
    }

    pub fn tui_load_request_query_params_tab(&mut self)
        ensures
            *final(self) == (App {
                request_param_tab: RequestParamsTabs::QueryParams,
                effects: final(self).effects,
                ..*old(self)
            }),
            final(self).effects@ == old(self).effects@.push(AppEffect::UpdateQueryParamsSelection).push(
                AppEffect::UpdateInputs,
            ),
    {
        self.effects.push(AppEffect::UpdateQueryParamsSelection);
        self.request_param_tab = RequestParamsTabs::QueryParams;
        self.effects.push(AppEffect::UpdateInputs);
    }

    pub fn tui_load_request_auth_param_tab(&mut self)
        ensures
            *final(self) == (App {
                request_param_tab: RequestParamsTabs::Auth,
                auth_text_input_selection: 0,
                effects: final(self).effects,
                ..*old(self)
            }),
            final(self).effects@ == old(self).effects@.push(AppEffect::UpdateInputs),
    {
        self.auth_text_input_selection = 0;
        self.request_param_tab = RequestParamsTabs::Auth;
        self.effects.push(AppEffect::UpdateInputs);
    }

    pub fn tui_load_request_headers_tab(&mut self)
        ensures
            *final(self) == (App {
                request_param_tab: RequestParamsTabs::Headers,
                effects: final(self).effects,
                ..*old(self)
            }),
            final(self).effects@ == old(self).effects@.push(AppEffect::UpdateHeadersSelection).push(
                AppEffect::UpdateInputs,
            ),
    {
        self.effects.push(AppEffect::UpdateHeadersSelection);
        self.request_param_tab = RequestParamsTabs::Headers;
        self.effects.push(AppEffect::UpdateInputs);
    }

    pub fn tui_load_request_body_param_tab(&mut self)
        ensures
            *final(self) == (App {
                request_param_tab: RequestParamsTabs::Body,
                effects: final(self).effects,
                ..*old(self)
            }),
            final(self).effects@ == old(self).effects@.push(AppEffect::UpdateInputs),
    {
        self.request_param_tab = RequestParamsTabs::Body;
        self.effects.push(AppEffect::UpdateInputs);
    }

    pub fn tui_load_request_message_param_tab(&mut self)
        ensures
            *final(self) == (App {
                request_param_tab: RequestParamsTabs::Message,
                effects: final(self).effects,
                ..*old(self)
            }),
            final(self).effects@ == old(self).effects@.push(AppEffect::UpdateInputs),
    {
        self.request_param_tab = RequestParamsTabs::Message;
        self.effects.push(AppEffect::UpdateInputs);
    }

    pub fn tui_load_request_mqtt_tab(&mut self, request_param_tab: RequestParamsTabs)
        ensures
            *final(self) == (App {
                request_param_tab,
                mqtt_form_selection: 0,
                effects: final(self).effects,
                ..*old(self)
            }),
            final(self).effects@ == old(self).effects@.push(AppEffect::UpdateInputs),
    {
        self.mqtt_form_selection = 0;
        self.request_param_tab = request_param_tab;
        self.effects.push(AppEffect::UpdateInputs);
    }
}

/// Going to the next tab stays among the protocol's tabs, and comes back to the same tab
/// after the protocol's five tabs.
pub proof fn lemma_next_tab_cycles(protocol: Protocol, tab: RequestParamsTabs)
    requires
        tab_shown(protocol, tab),
    ensures
        tab_shown(protocol, next_tab(protocol, tab)),
        next_tab(protocol, next_tab(protocol, next_tab(protocol, next_tab(protocol, next_tab(protocol, tab)))))
            == tab,
{
}

/// Updating the tab for the selected request always leaves a tab that its protocol shows, so
/// that going to the next tab is then possible, and keeps a tab that it already shows.
pub proof fn lemma_updated_tab_is_shown(protocol: Protocol, tab: RequestParamsTabs)
    ensures
        tab_shown(protocol, updated_tab(protocol, tab)),
        tab_shown(protocol, tab) ==> updated_tab(protocol, tab) == tab,
{
}

} // verus!
