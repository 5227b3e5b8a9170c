//! Where and as whom announcements are posted.

use vstd::prelude::*;
use crate::configuration::Configuration;

verus! {

/// The announcement channel's settings.
#[derive(Debug)]
pub struct Slacker {
    channel: String,
    webhook_url: String,
    username: String,
}

impl Slacker {
    /// The channel posted to.
    pub closed spec fn spec_channel(&self) -> Seq<char> {
        self.channel@
    }

    /// The hook posted through.
    pub closed spec fn spec_webhook_url(&self) -> Seq<char> {
        self.webhook_url@
    }

    /// The name posted under.
    pub closed spec fn spec_username(&self) -> Seq<char> {
        self.username@
    }

    /// The settings of `configuration`.
    pub fn new(configuration: &Configuration) -> (slacker: Slacker)
        ensures
            slacker.spec_channel() == configuration.slack.channel@,
            slacker.spec_webhook_url() == configuration.slack.webhook_url@,
            slacker.spec_username() == configuration.slack.username@,
    {
        Slacker {
            channel: configuration.slack.channel.clone(),
            webhook_url: configuration.slack.webhook_url.clone(),
            username: configuration.slack.username.clone(),
        }
    }

    /// The channel posted to.
    pub fn channel(&self) -> (channel: &str)
        ensures
            channel@ == self.spec_channel(),
    {
        self.channel.as_str()
    }

    /// The hook posted through.
    pub fn webhook_url(&self) -> (url: &str)
        ensures
            url@ == self.spec_webhook_url(),
    {
        self.webhook_url.as_str()
    }

    /// The name posted under.
    pub fn username(&self) -> (username: &str)
        ensures
            username@ == self.spec_username(),
    {
        self.username.as_str()
    }
}

} // verus!
