//! The state of the application that the MQTT logic reads and changes, and the effects it
//! asks the user interface to carry out.
use vstd::prelude::*;
use vstd::string::*;
use crate::text::{replace_all, replace_text};

verus! {

#[derive(Debug, Clone, Copy, PartialEq, Eq, Structural)]
pub enum RequestParamsTabs {
    QueryParams,
    Auth,
    Headers,
    Body,
    Message,
    Scripts,
    MqttConnection,
    MqttSubscriptions,
    MqttPublish,
}

/// What the user interface must do after a change, in the order given.
#[derive(Debug, Clone, Copy, PartialEq, Eq, Structural)]
pub enum AppEffect {
    /// Refresh the text inputs from the selected request
    UpdateInputs,
    UpdateQueryParamsSelection,
    UpdateHeadersSelection,
    /// Save the collection with this index to its file
    SaveCollection(usize),
    /// Go back to the selected request state
    SelectRequestState,
    /// Start editing the message (the MQTT payload)
    EditRequestMessageState,
    /// Start editing the selected MQTT form field
    EditMqttFormFieldState,
}

#[derive(Debug, Clone)]
pub struct Environment {
    pub name: String,
    pub values: Vec<(String, String)>,
}

impl Environment {
    pub open spec fn values_view(self) -> Seq<(Seq<char>, Seq<char>)> {
        self.values@.map_values(|kv: (String, String)| (kv.0@, kv.1@))
    }
}

/// How a variable is written in a request: `{{KEY}}`.
pub open spec fn env_pattern(key: Seq<char>) -> Seq<char> {
    "{{"@ + key + "}}"@
}

/// `s` with each variable of `values` replaced by its value, one variable after the other.
pub open spec fn replace_env_values(values: Seq<(Seq<char>, Seq<char>)>, s: Seq<char>) -> Seq<char>
    decreases values.len(),
{
    if values.len() == 0 {
        s
    } else {
        replace_all(
            replace_env_values(values.drop_last(), s),
            env_pattern(values.last().0),
            values.last().1,
        )
    }
}

pub struct App {
    /// The environment whose variables are replaced in requests, if one is selected
    pub selected_environment: Option<Environment>,
    pub request_param_tab: RequestParamsTabs,
    pub mqtt_form_selection: usize,
    pub auth_text_input_selection: usize,
    /// The selected row and column of the MQTT subscriptions table
    pub mqtt_subscriptions_selection: Option<(usize, usize)>,
    /// The collection and request indexes of the selected request
    pub selected_request: Option<(usize, usize)>,
    pub received_response: bool,
    /// The lines of the message (payload) text area
    pub message_text_area: Vec<String>,
    pub mqtt_form_text_input: String,
    pub mqtt_subscriptions_text_input: String,
    /// Effects to be carried out by the user interface, oldest first
    pub effects: Vec<AppEffect>,
}

impl App {
    /// An application with no environment and no request selected, on the query params tab.
    pub fn new() -> (app: Self)
        ensures
            app.selected_environment is None,
            app.request_param_tab == RequestParamsTabs::QueryParams,
            app.mqtt_form_selection == 0,
            app.auth_text_input_selection == 0,
            app.mqtt_subscriptions_selection is None,
            app.selected_request is None,
            !app.received_response,
            app.message_text_area@.len() == 0,
            app.mqtt_form_text_input@ == Seq::<char>::empty(),
            app.mqtt_subscriptions_text_input@ == Seq::<char>::empty(),
            app.effects@.len() == 0,
    {
        App {
            selected_environment: None,
            request_param_tab: RequestParamsTabs::QueryParams,
            mqtt_form_selection: 0,
            auth_text_input_selection: 0,
            mqtt_subscriptions_selection: None,
            selected_request: None,
            received_response: false,
            message_text_area: Vec::new(),
            mqtt_form_text_input: String::new(),
            mqtt_subscriptions_text_input: String::new(),
            effects: Vec::new(),
        }
    }

    /// `s` with the variables of the selected environment replaced by their values.
    pub open spec fn replaced(self, s: Seq<char>) -> Seq<char> {
        match self.selected_environment {
            None => s,
            Some(env) => replace_env_values(env.values_view(), s),
        }
    }

    pub fn replace_env_keys_by_value(&self, input: &String) -> (output: String)
        ensures
            output@ == self.replaced(input@),
    {
        let env = match &self.selected_environment {
            None => return input.clone(),
            Some(env) => env,
        };
        let ghost values = env.values_view();
        let mut output = input.clone();
        let mut i: usize = 0;
        while i < env.values.len()
            invariant
                i <= env.values@.len(),
                values == env.values_view(),
                output@ == replace_env_values(values.subrange(0, i as int), input@),
            decreases env.values@.len() - i,
        {
            let mut pattern = String::from_str("{{");
            pattern.append(env.values[i].0.as_str());
            pattern.append("}}");
            proof {
                reveal_strlit("{{");
                let next = values.subrange(0, i + 1);
                assert(next.drop_last() =~= values.subrange(0, i as int));
                assert(next.last() == values[i as int]);
            }
            output = replace_text(output.as_str(), pattern.as_str(), env.values[i].1.as_str());
            i = i + 1;
        }
        assert(values.subrange(0, env.values@.len() as int) =~= values);
        output
    }
}

} // verus!
