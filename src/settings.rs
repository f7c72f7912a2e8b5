//! The connection settings of the chat client, and the choices made when
//! lists of models, samplers and schedulers arrive.
use vstd::prelude::*;

use crate::endpoint::{build_url, url_of, EndpointType};
use crate::text::{chars_of, string_of_range, trim_end_char, trim_end_char_len, lemma_trim_end_char_prefix};

verus! {

/// The model name that stands for "none chosen yet".
pub open spec fn placeholder_model() -> Seq<char> {
    "local-model"@
}

/// Where the chat server is and which model is chosen.
pub struct ConnectionSettings {
    pub protocol: String,
    pub server: String,
    pub port: String,
    pub endpoint: String,
    pub endpoint_type: EndpointType,
    pub selected_model: String,
    pub available_models: Vec<String>,
}

impl ConnectionSettings {
    /// The native family on the local host, no model chosen.
    pub fn new() -> (r: ConnectionSettings)
        ensures
            r.protocol@ == "http"@,
            r.server@ == "localhost"@,
            r.port@ == "11434"@,
            r.endpoint@ == "v1/chat/completions"@,
            r.endpoint_type == EndpointType::Ollama,
            r.selected_model@ == placeholder_model(),
            r.available_models@.len() == 0,
    {
        ConnectionSettings {
            protocol: String::from_str("http"),
            server: String::from_str("localhost"),
            port: String::from_str("11434"),
            endpoint: String::from_str("v1/chat/completions"),
            endpoint_type: EndpointType::Ollama,
            selected_model: String::from_str("local-model"),
            available_models: Vec::new(),
        }
    }

    /// Puts the address back to its defaults; the family, the model and
    /// the model list stay.
    pub fn reset_to_defaults(&mut self)
        ensures
            final(self).protocol@ == "http"@,
            final(self).server@ == "localhost"@,
            final(self).port@ == "11434"@,
            final(self).endpoint@ == "v1/chat/completions"@,
            final(self).endpoint_type == old(self).endpoint_type,
            final(self).selected_model == old(self).selected_model,
            final(self).available_models == old(self).available_models,
    {
        self.protocol = String::from_str("http");
        self.server = String::from_str("localhost");
        self.port = String::from_str("11434");
        self.endpoint = String::from_str("v1/chat/completions");
    }

    /// Switches the backend family: its default port and path, no model
    /// chosen, and the model list emptied.
    pub fn update_endpoint_type(&mut self, t: EndpointType)
        ensures
            final(self).endpoint_type == t,
            final(self).port@ == t.spec_default_port(),
            final(self).endpoint@ == t.spec_default_endpoint(),
            final(self).selected_model@ == placeholder_model(),
            final(self).available_models@.len() == 0,
            final(self).protocol == old(self).protocol,
            final(self).server == old(self).server,
    {
        self.endpoint_type = t;
        self.port = String::from_str(t.default_port());
        self.endpoint = String::from_str(t.default_endpoint());
        self.selected_model = String::from_str("local-model");
        self.available_models = Vec::new();
    }

    /// The URL of the model listing.
    pub fn models_url(&self) -> (r: String)
        ensures
            r@ == url_of(
                self.protocol@,
                self.server@,
                self.port@,
                self.endpoint_type.models_path(self.endpoint@),
            ),
    {
        let path = self.endpoint_type.models_endpoint(self.endpoint.as_str());
        build_url(self.protocol.as_str(), self.server.as_str(), self.port.as_str(), path.as_str())
    }

    /// The URL of the chat endpoint.
    pub fn chat_url(&self) -> (r: String)
        ensures
            r@ == url_of(
                self.protocol@,
                self.server@,
                self.port@,
                self.endpoint_type.chat_path(self.endpoint@),
            ),
    {
        let path = self.endpoint_type.chat_endpoint(self.endpoint.as_str());
        build_url(self.protocol.as_str(), self.server.as_str(), self.port.as_str(), path.as_str())
    }

    /// A model listing arrived: it replaces the list, and when no model
    /// was chosen yet the first one is.
    pub fn set_available_models(&mut self, models: Vec<String>)
        ensures
            final(self).available_models == models,
            old(self).selected_model@ == placeholder_model() && models@.len() > 0
                ==> final(self).selected_model == models@[0],
            !(old(self).selected_model@ == placeholder_model() && models@.len() > 0)
                ==> final(self).selected_model == old(self).selected_model,
            final(self).endpoint_type == old(self).endpoint_type,
    {
        let placeholder = String::from_str("local-model");
        if self.selected_model == placeholder && models.len() > 0 {
            self.selected_model = models[0].clone();
        }
        self.available_models = models;
    }
}

/// The image service's URL for `path`: the base without trailing slashes,
/// then `path`.
pub open spec fn service_url(base: Seq<char>, path: Seq<char>) -> Seq<char> {
    trim_end_char(base, '/') + path
}

/// Joins the image service's base URL and an API path.
pub fn service_endpoint(base: &str, path: &str) -> (r: String)
    ensures
        r@ == service_url(base@, path@),
{
    let cs = chars_of(base);
    let t = trim_end_char_len(&cs, cs.len(), '/');
    proof {
        assert(cs@.subrange(0, cs.len() as int) =~= cs@);
        lemma_trim_end_char_prefix(cs@, '/');
    }
    let mut r = string_of_range(base, 0, t);
    r.append(path);
    r
}

/// The scheduler types offered for every sampler.
pub fn default_schedulers() -> (r: Vec<String>)
    ensures
        r@.len() == 5,
        r@[0]@ == "Automatic"@,
        r@[1]@ == "Uniform"@,
        r@[2]@ == "Karras"@,
        r@[3]@ == "Exponential"@,
        r@[4]@ == "Polyexponential"@,
{
    let mut r: Vec<String> = Vec::new();
    r.push(String::from_str("Automatic"));
    r.push(String::from_str("Uniform"));
    r.push(String::from_str("Karras"));
    r.push(String::from_str("Exponential"));
    r.push(String::from_str("Polyexponential"));
    r
}

/// A checkpoint offered by the image service.
#[derive(Debug, Clone)]
pub struct SDModel {
    pub title: String,
    pub model_name: String,
    pub hash: Option<String>,
    pub sha256: Option<String>,
    pub filename: Option<String>,
    pub config: Option<String>,
}

/// A scheduler type of the image service.
#[derive(Debug, Clone)]
pub struct ScheduleType {
    pub name: String,
}

/// The checkpoint to select once the checkpoint list arrives: the first
/// one's model name when none is selected, else none to change.
pub fn initial_checkpoint(selected: &str, models: &Vec<SDModel>) -> (r: Option<String>)
    ensures
        selected@.len() == 0 && models@.len() > 0 ==> r == Some(models@[0].model_name),
        !(selected@.len() == 0 && models@.len() > 0) ==> r is None,
{
    if selected.is_empty() && models.len() > 0 {
        Some(models[0].model_name.clone())
    } else {
        None
    }
}

/// Whether `names` holds `name`.
pub open spec fn holds_name(names: Seq<String>, name: Seq<char>) -> bool {
    exists|i: int| 0 <= i < names.len() && (#[trigger] names[i])@ == name
}

/// The sampler to select once the sampler list arrives: the selection
/// stays if there is one; else `Euler a` if offered, else the first
/// offered, else `Euler a`.
pub fn choose_sampler(selected: &str, samplers: &Vec<String>) -> (r: String)
    ensures
        selected@.len() > 0 ==> r@ == selected@,
        selected@.len() == 0 ==> (if holds_name(samplers@, "Euler a"@) || samplers@.len() == 0 {
            r@ == "Euler a"@
        } else {
            r == samplers@[0]
        }),
{
    if !selected.is_empty() {
        return String::from_str(selected);
    }
    let preferred = String::from_str("Euler a");
    let mut i: usize = 0;
    while i < samplers.len()
        invariant
            i <= samplers@.len(),
            preferred@ == "Euler a"@,
            selected@.len() == 0,
            forall|k: int| 0 <= k < i ==> (#[trigger] samplers@[k])@ != "Euler a"@,
        decreases samplers@.len() - i,
    {
        if samplers[i] == preferred {
            return preferred;
        }
        i = i + 1;
    }
    if samplers.len() > 0 {
        samplers[0].clone()
    } else {
        preferred
    }
}

/// The scheduler to select once the scheduler list arrives: the first
/// one when none is selected, else the selection.
pub fn choose_scheduler(selected: &str, schedulers: &Vec<String>) -> (r: String)
    ensures
        selected@.len() == 0 && schedulers@.len() > 0 ==> r == schedulers@[0],
        !(selected@.len() == 0 && schedulers@.len() > 0) ==> r@ == selected@,
{
    if selected.is_empty() && schedulers.len() > 0 {
        schedulers[0].clone()
    } else {
        String::from_str(selected)
    }
}

} // verus!
