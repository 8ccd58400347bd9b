use crate::foreign::{json_pair, json_pair_text, random_between};
use crate::text::{
    chars_of, joined, find_word, first_word, same_text, second_word, signed_decimal,
    signed_decimal_text,
};
use crate::types::{BotConfig, Message, Response, SendMessage, SetWebhook, Webhook};
use crate::weather::WeatherProvider;
use vstd::prelude::*;

verus! {

/// The commands the bot knows, and the one that stands for everything else.
#[derive(Clone, Copy, Debug, PartialEq, Eq, Structural)]
pub enum Command {
    Ip,
    Temp,
    Dice,
    Affirm,
    Hello,
    Unknown,
}

/// What the bot does about a message: answer at once, or have something
/// looked up first.
#[derive(Clone, Debug, PartialEq, Eq)]
pub enum Handling {
    /// The answer is known.
    Reply(String),
    /// The public address of this host has to be looked up.
    FetchIp,
    /// The temperature in the given city has to be looked up.
    FetchTemperature(String),
    /// An affirmation has to be fetched.
    FetchAffirmation,
}

/// The mathematical value of a `Handling`.
pub enum HandlingView {
    Reply(Seq<char>),
    FetchIp,
    FetchTemperature(Seq<char>),
    FetchAffirmation,
}

impl View for Handling {
    type V = HandlingView;

    open spec fn view(&self) -> HandlingView {
        match self {
            Handling::Reply(text) => HandlingView::Reply(text@),
            Handling::FetchIp => HandlingView::FetchIp,
            Handling::FetchTemperature(city) => HandlingView::FetchTemperature(city@),
            Handling::FetchAffirmation => HandlingView::FetchAffirmation,
        }
    }
}

/// The views of an optional text.
pub open spec fn text_of(found: Option<String>) -> Option<Seq<char>> {
    match found {
        Some(text) => Some(text@),
        None => None,
    }
}

/// The command that the first word of `text` selects.
pub open spec fn command_of(text: Seq<char>) -> Command {
    match first_word(text) {
        Some(word) => if word == "/ip"@ {
            Command::Ip
        } else if word == "/temp"@ {
            Command::Temp
        } else if word == "/dice"@ {
            Command::Dice
        } else if word == "/affirm"@ {
            Command::Affirm
        } else if word == "hello"@ {
            Command::Hello
        } else {
            Command::Unknown
        },
        None => Command::Unknown,
    }
}

/// How a message with the given text is handled, where `favourite` is the
/// city of choice and `roll` what the die shows.
pub open spec fn handling_of(text: Seq<char>, favourite: Seq<char>, roll: int) -> HandlingView {
    match command_of(text) {
        Command::Ip => HandlingView::FetchIp,
        Command::Temp => HandlingView::FetchTemperature(
            match second_word(text) {
                Some(city) => city,
                None => favourite,
            },
        ),
        Command::Dice => HandlingView::Reply(signed_decimal(roll)),
        Command::Affirm => HandlingView::FetchAffirmation,
        Command::Hello => HandlingView::Reply("hello back :)"@),
        Command::Unknown => HandlingView::Reply("did not understand!"@),
    }
}

/// The answer that goes out once a lookup has ended, with `found` holding
/// what it brought, or nothing where it failed.
pub open spec fn conclusion_of(handling: HandlingView, found: Option<Seq<char>>) -> Seq<char> {
    match handling {
        HandlingView::Reply(text) => text,
        HandlingView::FetchIp => match found {
            Some(ip) => ip,
            None => "Problem getting the ip, try again"@,
        },
        HandlingView::FetchTemperature(_) => match found {
            Some(temperature) => temperature,
            None => "Error getting the temp"@,
        },
        HandlingView::FetchAffirmation => match found {
            Some(affirmation) => affirmation,
            None => "Error getting the affirmation"@,
        },
    }
}

/// The endpoint of the platform for `method`, called with `token`.
pub open spec fn endpoint(token: Seq<char>, method: Seq<char>) -> Seq<char> {
    "https://api.telegram.org/bot"@ + token + "/"@ + method
}

/// Whether the platform's report says that deliveries go to `ip` under a
/// certificate of our own.
pub open spec fn webhook_matches(info: Response<Webhook>, ip: Seq<char>) -> bool {
    &&& info.ok
    &&& text_of(info.result.ip_address) == Some(ip)
    &&& info.result.has_custom_certificate
}

/// The source address patterns of the platform's servers.
pub open spec fn webhook_sources() -> Seq<Seq<char>> {
    seq![
        "91.108.4.*"@,
        "91.108.5.*"@,
        "91.108.6.*"@,
        "91.108.7.*"@,
        "149.154.16?.*"@,
        "149.154.17?.*"@,
        "91.108.6.66"@,
    ]
}

/// The views of a list of patterns.
pub open spec fn patterns_of(patterns: Vec<&'static str>) -> Seq<Seq<char>> {
    Seq::new(patterns@.len(), |i: int| patterns@[i]@)
}

/// What a chat bot offers to the listener that serves it.
pub trait Bot {
    /// Decides what to do about a delivery.
    fn handle_message(&self, msg: &Message) -> Handling;

    /// Whether the platform's report says that deliveries go to `ip` under a
    /// certificate of our own.
    fn is_webhook_configured(&self, info: &Response<Webhook>, ip: &str) -> bool;

    /// The source address patterns from which deliveries are accepted.
    fn get_webhook_ips(&self) -> Vec<&'static str>;
}

/// Finds the command that the first word of `text` selects.
pub fn command_for(text: &str) -> (command: Command)
    ensures
        command == command_of(text@),
{
    let chars = chars_of(text);
    match find_word(&chars, 0) {
        Some((start, end)) => {
            let word = text.substring_char(start, end);
            if same_text(word, "/ip") {
                Command::Ip
            } else if same_text(word, "/temp") {
                Command::Temp
            } else if same_text(word, "/dice") {
                Command::Dice
            } else if same_text(word, "/affirm") {
                Command::Affirm
            } else if same_text(word, "hello") {
                Command::Hello
            } else {
                Command::Unknown
            }
        },
        None => Command::Unknown,
    }
}

/// Finds the second word of `text`.
pub fn argument_for(text: &str) -> (argument: Option<String>)
    ensures
        text_of(argument) == second_word(text@),
{
    let chars = chars_of(text);
    match find_word(&chars, 0) {
        Some((_, end)) => match find_word(&chars, end) {
            Some((start, stop)) => Some(String::from_str(text.substring_char(start, stop))),
            None => None,
        },
        None => None,
    }
}

/// Decides how a message is handled, given the city of choice and what the
/// die shows.
pub fn dispatch(text: &str, favourite: &str, roll: i32) -> (handling: Handling)
    ensures
        handling@ == handling_of(text@, favourite@, roll as int),
{
    match command_for(text) {
        Command::Ip => Handling::FetchIp,
        Command::Temp => match argument_for(text) {
            Some(city) => Handling::FetchTemperature(city),
            None => Handling::FetchTemperature(String::from_str(favourite)),
        },
        Command::Dice => Handling::Reply(signed_decimal_text(roll as i64)),
        Command::Affirm => Handling::FetchAffirmation,
        Command::Hello => Handling::Reply(String::from_str("hello back :)")),
        Command::Unknown => Handling::Reply(String::from_str("did not understand!")),
    }
}

/// Words the answer once a lookup has ended: what was found, or the
/// apology that belongs to the lookup where it failed.
pub fn conclude(handling: Handling, found: Option<String>) -> (answer: String)
    ensures
        answer@ == conclusion_of(handling@, text_of(found)),
{
    match handling {
        Handling::Reply(text) => text,
        Handling::FetchIp => match found {
            Some(ip) => ip,
            None => String::from_str("Problem getting the ip, try again"),
        },
        Handling::FetchTemperature(_) => match found {
            Some(temperature) => temperature,
            None => String::from_str("Error getting the temp"),
        },
        Handling::FetchAffirmation => match found {
            Some(affirmation) => affirmation,
            None => String::from_str("Error getting the affirmation"),
        },
    }
}

/// A bot that answers over the Telegram Bot API.
#[derive(Clone)]
pub struct TelegramBot<T: WeatherProvider> {
    weather: T,
    config: BotConfig,
}

impl<T: WeatherProvider> TelegramBot<T> {
    /// The secret this bot calls the platform with.
    pub closed spec fn token(&self) -> Seq<char> {
        self.config.token@
    }

    /// The weather source this bot was made with.
    pub closed spec fn provider(&self) -> T {
        self.weather
    }

    pub fn new(weather: T, config: BotConfig) -> (bot: Self)
        ensures
            bot.token() == config.token@,
            bot.provider() == weather,
    {
        TelegramBot { weather, config }
    }

    pub fn get_token(&self) -> (token: &str)
        ensures
            token@ == self.token(),
    {
        self.config.token.as_str()
    }

    /// The weather source this bot was made with.
    pub fn weather(&self) -> (weather: &T)
        ensures
            *weather == self.provider(),
    {
        &self.weather
    }

    /// The endpoint of the platform for `method`.
    pub fn method_url(&self, method: &str) -> (url: String)
        ensures
            url@ == endpoint(self.token(), method@),
    {
        let mut url = joined("https://api.telegram.org/bot", self.config.token.as_str());
        url.append("/");
        url.append(method);
        url
    }

    /// The post that sends `msg` to the chat `id`.
    pub fn reply(&self, id: u64, msg: &str) -> (post: SendMessage)
        ensures
            post.url@ == endpoint(self.token(), "sendMessage"@),
            post.body@ == json_pair_text("chat_id"@, id, "text"@, msg@),
    {
        SendMessage {
            url: self.method_url("sendMessage"),
            body: json_pair("chat_id", id, "text", msg),
        }
    }

    /// The post that registers `ip` as the delivery address and has the
    /// platform pin `certificate`.
    pub fn update_webhook_cert(&self, certificate: Vec<u8>, ip: &str) -> (post: SetWebhook)
        ensures
            post.url@ == endpoint(self.token(), "setWebhook"@),
            post.webhook_url@ == "https://"@ + ip@,
            post.file_name@ == "cert.pem"@,
            post.certificate@ == certificate@,
    {
        SetWebhook {
            url: self.method_url("setWebhook"),
            webhook_url: joined("https://", ip),
            file_name: String::from_str("cert.pem"),
            certificate,
        }
    }

    /// Where an affirmation is fetched from.
    pub fn affirmation_url(&self) -> (url: String)
        ensures
            url@ == "https://affirmations.dev"@,
    {
        String::from_str("https://affirmations.dev")
    }

    /// Where the platform's report on the delivery address is fetched from.
    pub fn webhook_info_url(&self) -> (url: String)
        ensures
            url@ == endpoint(self.token(), "getWebhookInfo"@),
    {
        self.method_url("getWebhookInfo")
    }
}

impl<T: WeatherProvider> Bot for TelegramBot<T> {
    /// Handles the message as `dispatch` does, with the favourite city of
    /// the weather source and a die that is rolled here.
    fn handle_message(&self, msg: &Message) -> (handling: Handling)
        ensures
            exists|roll: int|
                1 <= roll <= 6 && handling@ == #[trigger] handling_of(
                    msg.text@,
                    self.provider().favourite(),
                    roll,
                ),
    {
        let command = command_for(msg.text.as_str());
        let favourite = match command {
            Command::Temp => self.weather.get_favourite_city(),
            _ => String::new(),
        };
        let roll: i32 = match command {
            Command::Dice => random_between(1, 6),
            _ => 1,
        };
        let handling = dispatch(msg.text.as_str(), favourite.as_str(), roll);
        assert(handling@ == handling_of(msg.text@, self.provider().favourite(), roll as int));
        handling
    }

    fn is_webhook_configured(&self, info: &Response<Webhook>, ip: &str) -> (configured: bool)
        ensures
            configured == webhook_matches(*info, ip@),
    {
        if !info.ok {
            return false;
        }
        match &info.result.ip_address {
            Some(registered) => same_text(registered.as_str(), ip)
                && info.result.has_custom_certificate,
            None => false,
        }
    }

    fn get_webhook_ips(&self) -> (patterns: Vec<&'static str>)
        ensures
            patterns_of(patterns) == webhook_sources(),
    {
        let patterns = vec![
            "91.108.4.*",
            "91.108.5.*",
            "91.108.6.*",
            "91.108.7.*",
            "149.154.16?.*",
            "149.154.17?.*",
            "91.108.6.66",
        ];
        assert(patterns_of(patterns) =~= webhook_sources());
        patterns
    }
}

} // verus!
