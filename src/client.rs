//! Settings of the transcription service client and the address it
//! connects to.
use vstd::prelude::*;
use vstd::string::*;

verus! {

#[derive(Debug, Clone)]
pub struct ClientConfig {
    pub api_key: String,
    pub model_id: String,
    pub language_code: String,
    pub encoding: String,
}

impl Default for ClientConfig {
    /// No key, the realtime model, Mandarin, 16 kHz PCM.
    fn default() -> (r: Self)
        ensures
            r.api_key@.len() == 0,
            r.model_id@ == "scribe_v2_realtime"@,
            r.language_code@ == "cmn"@,
            r.encoding@ == "pcm_16000"@,
    {
        ClientConfig {
            api_key: String::new(),
            model_id: String::from_str("scribe_v2_realtime"),
            language_code: String::from_str("cmn"),
            encoding: String::from_str("pcm_16000"),
        }
    }
}

/// The address of the realtime speech-to-text endpoint.
pub open spec fn service_base_url() -> Seq<char> {
    "wss://api.elevenlabs.io/v1/speech-to-text/realtime"@
}

pub struct ScribeClient {
    config: ClientConfig,
    base_url: String,
}

impl ScribeClient {
    pub closed spec fn spec_config(&self) -> ClientConfig {
        self.config
    }

    pub closed spec fn spec_base_url(&self) -> Seq<char> {
        self.base_url@
    }

    /// A client with `api_key` and the default settings otherwise.
    pub fn new(api_key: String) -> (r: Self)
        ensures
            r.spec_config().api_key@ == api_key@,
            r.spec_config().model_id@ == "scribe_v2_realtime"@,
            r.spec_config().language_code@ == "cmn"@,
            r.spec_config().encoding@ == "pcm_16000"@,
            r.spec_base_url() == service_base_url(),
    {
        let mut config = ClientConfig::default();
        config.api_key = api_key;
        ScribeClient::with_config(config)
    }

    /// A client with the given settings.
    pub fn with_config(config: ClientConfig) -> (r: Self)
        ensures
            r.spec_config() == config,
            r.spec_base_url() == service_base_url(),
    {
        ScribeClient {
            config,
            base_url: String::from_str("wss://api.elevenlabs.io/v1/speech-to-text/realtime"),
        }
    }

    pub fn set_language(&mut self, language_code: String)
        ensures
            final(self).spec_config() == (ClientConfig { language_code, ..old(self).spec_config() }),
            final(self).spec_base_url() == old(self).spec_base_url(),
    {
        self.config.language_code = language_code;
    }

    pub fn config(&self) -> (r: &ClientConfig)
        ensures
            *r == self.spec_config(),
    {
        &self.config
    }

    /// The address to connect to: the endpoint with the model and the
    /// encoding as query parameters.
    pub fn request_url(&self) -> (r: String)
        ensures
            r@ == self.spec_base_url() + "?model_id="@ + self.spec_config().model_id@
                + "&encoding="@ + self.spec_config().encoding@,
    {
        let mut url = self.base_url.clone();
        url.append("?model_id=");
        url.append(self.config.model_id.as_str());
        url.append("&encoding=");
        url.append(self.config.encoding.as_str());
        url
    }
}

} // verus!
