//! The settings of a deployment.

use vstd::prelude::*;

verus! {

/// The settings of a deployment: a colour and the channels and people
/// that the bot knows by id.
#[derive(Clone, Debug, PartialEq, Eq)]
pub struct ConfigMeta {
    pub embed_color: i32,
    pub ready_notify: u64,
    /// The channel that feed outputs are posted to.
    pub rss_channel: u64,
    /// The channel that reports for the operators are posted to.
    pub kon_logs: u64,
    pub developers: Vec<u64>,
}

impl ConfigMeta {
    /// The settings of production.
    pub fn new() -> (config: Self)
        ensures
            config.embed_color == 0x5a99c7,
            config.ready_notify == 865673694184996888,
            config.rss_channel == 865673694184996888,
            config.kon_logs == 1268493237912604672,
            config.developers@ == seq![190407856527376384u64],
    {
        let mut developers: Vec<u64> = Vec::new();
        developers.push(190407856527376384);
        Self {
            embed_color: 0x5a99c7,
            ready_notify: 865673694184996888,
            rss_channel: 865673694184996888,
            kon_logs: 1268493237912604672,
            developers,
        }
    }

    /// The same settings with another colour.
    pub fn embed_color(self, color: i32) -> (config: Self)
        ensures
            config == (ConfigMeta { embed_color: color, ..self }),
    {
        let mut config = self;
        config.embed_color = color;
        config
    }

    /// The same settings with another channel for the ready notice.
    pub fn ready_notify(self, channel_id: u64) -> (config: Self)
        ensures
            config == (ConfigMeta { ready_notify: channel_id, ..self }),
    {
        let mut config = self;
        config.ready_notify = channel_id;
        config
    }

    /// The same settings with another channel for feed outputs.
    pub fn rss_channel(self, channel_id: u64) -> (config: Self)
        ensures
            config == (ConfigMeta { rss_channel: channel_id, ..self }),
    {
        let mut config = self;
        config.rss_channel = channel_id;
        config
    }
}

} // verus!
