use vstd::prelude::*;

verus! {

/// Settings of the bot itself.
#[derive(Clone, Debug)]
pub struct BotConfig {
    /// The secret that authorises calls to the platform.
    pub token: String,
    /// The city whose weather is reported when a request names none.
    pub default_city: String,
}

/// Settings of the listener and of the address monitor.
#[derive(Clone, Debug)]
pub struct ServerConfig {
    /// The port on which deliveries are accepted.
    pub port: u16,
    /// Where the public certificate is kept.
    pub pubkey_path: String,
    /// Where the private key is kept.
    pub privkey_path: String,
    /// Seconds between two looks at the public address.
    pub poll_interval: u64,
}

/// Everything the process is configured with. It is read once and never
/// changed afterwards.
#[derive(Clone, Debug)]
pub struct Config {
    pub bot: BotConfig,
    pub server: ServerConfig,
}

/// The conversation a message belongs to.
#[derive(Clone, Copy, Debug, PartialEq, Eq, Structural)]
pub struct Chat {
    pub id: u64,
}

/// One delivery of the platform: who wrote, and what.
#[derive(Clone, Debug, PartialEq, Eq)]
pub struct Message {
    pub chat: Chat,
    pub text: String,
}

/// What the platform reports of the delivery address it has on record.
#[derive(Clone, Debug)]
pub struct Webhook {
    pub ip_address: Option<String>,
    pub has_custom_certificate: bool,
}

/// The envelope around every answer of the platform.
#[derive(Clone, Debug)]
pub struct Response<T> {
    pub ok: bool,
    pub result: T,
}

/// A text message to be posted to the platform.
#[derive(Clone, Debug, PartialEq, Eq)]
pub struct SendMessage {
    /// The endpoint to post to.
    pub url: String,
    /// The body, a JSON object.
    pub body: String,
}

/// A registration of the delivery address, to be posted to the platform as
/// a multipart form.
#[derive(Clone, Debug, PartialEq, Eq)]
pub struct SetWebhook {
    /// The endpoint to post to.
    pub url: String,
    /// The address at which the platform shall deliver.
    pub webhook_url: String,
    /// The name under which the certificate is uploaded.
    pub file_name: String,
    /// The public certificate that the platform shall pin.
    pub certificate: Vec<u8>,
}

} // verus!
