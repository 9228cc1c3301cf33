use vstd::prelude::*;
use vstd::string::*;

verus! {

pub const PUBLIC_BYBIT_WS_URL: &'static str = "wss://stream.bybit.com/v5/public/linear";

pub const PRIVATE_BYBIT_WS_URL: &'static str = "wss://stream.bybit.com/v5/private";

/// Least time between two application-level pings, in milliseconds.
pub const PING_INTERVAL_MS: u64 = 20000;

/// Payload of the application-level ping.
pub const APP_PING: &'static str = "{\"op\":\"ping\"}";

/// What the connection hands the worker.
#[derive(Clone, Debug)]
pub enum FeedEvent {
    Text(String),
    Ping(Vec<u8>),
    Pong,
    Binary,
    Close,
    ReceiveError,
}

/// What the worker asks of the connection.
#[derive(Clone, Debug)]
pub enum FeedAction {
    /// Hand a text frame to the message handler.
    Deliver(String),
    /// Answer a protocol ping with a pong whose payload is empty.
    Pong,
    /// Send a ping frame whose payload is `APP_PING`; report success with `ping_sent`.
    AppPing,
    /// Drop the socket, open a new one and send `send_subscriptions` again.
    Reconnect,
    /// End the receive loop.
    Stop,
}

/// State of the market-data feed worker.
#[derive(Clone, Debug)]
pub struct BybitWebsocket {
    pub api_key: String,
    pub api_secret: String,
    pub ws_url: String,
    pub subscriptions: Vec<String>,
    pub last_ping_sent_ms: u64,
}

/// The subscribe frame for one topic.
pub open spec fn subscription_frame(topic: Seq<char>) -> Seq<char> {
    "{\"op\":\"subscribe\",\"args\":[\""@ + topic + "\"]}"@
}

/// An application ping is due once `PING_INTERVAL_MS` have passed since the last one.
pub open spec fn ping_due(last_ping_ms: u64, now_ms: u64) -> bool {
    now_ms >= last_ping_ms && now_ms - last_ping_ms >= PING_INTERVAL_MS
}

/// The worker's answer to one event at `now_ms`.
pub open spec fn event_actions(last_ping_ms: u64, event: FeedEvent, now_ms: u64) -> Seq<FeedAction> {
    let ping = if ping_due(last_ping_ms, now_ms) {
        seq![FeedAction::AppPing]
    } else {
        Seq::empty()
    };
    match event {
        FeedEvent::Close => seq![FeedAction::Stop],
        FeedEvent::ReceiveError => seq![FeedAction::Reconnect],
        FeedEvent::Text(t) => seq![FeedAction::Deliver(t)] + ping,
        FeedEvent::Ping(_) => seq![FeedAction::Pong] + ping,
        FeedEvent::Pong => ping,
        FeedEvent::Binary => ping,
    }
}

impl BybitWebsocket {
    /// A worker for `ws_url` (the public linear feed when absent) and the given topics, started at
    /// `now_ms`; the first application ping falls due `PING_INTERVAL_MS` later.
    pub fn new(
        api_key: &String,
        api_secret: &String,
        ws_url: Option<String>,
        subscriptions: Option<Vec<String>>,
        now_ms: u64,
    ) -> (r: BybitWebsocket)
        ensures
            r.api_key@ == api_key@,
            r.api_secret@ == api_secret@,
            r.ws_url@ == (match ws_url {
                Some(u) => u@,
                None => PUBLIC_BYBIT_WS_URL@,
            }),
            r.subscriptions@ == (match subscriptions {
                Some(s) => s@,
                None => Seq::<String>::empty(),
            }),
            r.last_ping_sent_ms == now_ms,
    {
        let ws_url = match ws_url {
            Some(u) => u,
            None => String::from_str(PUBLIC_BYBIT_WS_URL),
        };
        let subscriptions = match subscriptions {
            Some(s) => s,
            None => Vec::new(),
        };
        BybitWebsocket {
            api_key: api_key.clone(),
            api_secret: api_secret.clone(),
            ws_url,
            subscriptions,
            last_ping_sent_ms: now_ms,
        }
    }

    /// The subscribe frames to send after each handshake, one per topic, in order.
    pub fn send_subscriptions(&self) -> (r: Vec<String>)
        ensures
            r@.len() == self.subscriptions@.len(),
            forall|i: int|
                0 <= i < r@.len() ==> #[trigger] r@[i]@ == subscription_frame(
                    self.subscriptions@[i]@,
                ),
    {
        let mut frames: Vec<String> = Vec::new();
        let mut i: usize = 0;
        while i < self.subscriptions.len()
            invariant
                i <= self.subscriptions@.len(),
                frames@.len() == i,
                forall|j: int|
                    0 <= j < i ==> #[trigger] frames@[j]@ == subscription_frame(
                        self.subscriptions@[j]@,
                    ),
            decreases self.subscriptions@.len() - i,
        {
            let mut frame = String::from_str("{\"op\":\"subscribe\",\"args\":[\"");
            frame.append(self.subscriptions[i].as_str());
            frame.append("\"]}");
            frames.push(frame);
            i = i + 1;
        }
        frames
    }

    /// What to do on `event` received at `now_ms`.
    pub fn on_event(&self, event: FeedEvent, now_ms: u64) -> (r: Vec<FeedAction>)
        ensures
            r@ == event_actions(self.last_ping_sent_ms, event, now_ms),
    {
        let ghost ev = event;
        let mut actions: Vec<FeedAction> = Vec::new();
        match event {
            FeedEvent::Close => {
                actions.push(FeedAction::Stop);
                return actions;
            },
            FeedEvent::ReceiveError => {
                actions.push(FeedAction::Reconnect);
                return actions;
            },
            FeedEvent::Text(t) => actions.push(FeedAction::Deliver(t)),
            FeedEvent::Ping(_) => actions.push(FeedAction::Pong),
            FeedEvent::Pong => {},
            FeedEvent::Binary => {},
        }
        if now_ms >= self.last_ping_sent_ms && now_ms - self.last_ping_sent_ms >= PING_INTERVAL_MS {
            actions.push(FeedAction::AppPing);
        }
        assert(actions@ =~= event_actions(self.last_ping_sent_ms, ev, now_ms));
        actions
    }

    /// Records that the application ping went out at `now_ms`.
    pub fn ping_sent(&mut self, now_ms: u64)
        ensures
            final(self).last_ping_sent_ms == now_ms,
            final(self).api_key == old(self).api_key,
            final(self).api_secret == old(self).api_secret,
            final(self).ws_url == old(self).ws_url,
            final(self).subscriptions == old(self).subscriptions,
    {
        self.last_ping_sent_ms = now_ms;
    }
}

/// Ping cadence: from a ping (or start-up) at `last`, the next one falls due exactly when
/// `PING_INTERVAL_MS` have passed, so two pings are never closer than that.
pub proof fn lemma_ping_cadence(last: u64, now: u64)
    requires
        last <= now,
    ensures
        ping_due(last, now) <==> now >= last + PING_INTERVAL_MS,
        !ping_due(last, now) ==> !event_actions(last, FeedEvent::Pong, now).contains(FeedAction::AppPing),
        ping_due(last, now) ==> event_actions(last, FeedEvent::Pong, now) == seq![FeedAction::AppPing],
{
    if !ping_due(last, now) {
        assert(event_actions(last, FeedEvent::Pong, now) =~= Seq::<FeedAction>::empty());
    }
}

} // verus!
