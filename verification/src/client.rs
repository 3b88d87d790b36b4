use vstd::prelude::*;

verus! {

/// `s` with every trailing '/' removed.
pub open spec fn trim_trailing_slashes(s: Seq<char>) -> Seq<char>
    decreases s.len(),
{
    if s.len() > 0 && s.last() == '/' {
        trim_trailing_slashes(s.drop_last())
    } else {
        s
    }
}

/// Trimming keeps a prefix of the text and leaves no '/' at its end.
pub proof fn lemma_trim_trailing_slashes(s: Seq<char>)
    ensures
        trim_trailing_slashes(s).len() <= s.len(),
        trim_trailing_slashes(s) == s.take(trim_trailing_slashes(s).len() as int),
        !(trim_trailing_slashes(s).len() > 0 && trim_trailing_slashes(s).last() == '/'),
        forall|i: int|
            trim_trailing_slashes(s).len() <= i < s.len() ==> #[trigger] s[i] == '/',
    decreases s.len(),
{
    if s.len() > 0 && s.last() == '/' {
        lemma_trim_trailing_slashes(s.drop_last());
        let t = trim_trailing_slashes(s.drop_last());
        assert(s.drop_last().take(t.len() as int) =~= s.take(t.len() as int));
        assert forall|i: int| t.len() <= i < s.len() implies #[trigger] s[i] == '/' by {
            if i < s.len() - 1 {
                assert(s.drop_last()[i] == s[i]);
            }
        }
    } else {
        assert(s.take(s.len() as int) =~= s);
    }
}

/// Trimming twice trims no more than trimming once.
pub proof fn lemma_trim_trailing_slashes_idempotent(s: Seq<char>)
    ensures
        trim_trailing_slashes(trim_trailing_slashes(s)) == trim_trailing_slashes(s),
{
    lemma_trim_trailing_slashes(s);
}

/// A configuration override sent by the collector: each field it holds
/// replaces the agent's own.
pub struct RemoteConfig {
    pub interval_secs: Option<u64>,
    pub ping_targets: Option<Vec<String>>,
}

/// The mathematical value of a [`RemoteConfig`].
pub struct RemoteConfigView {
    pub interval_secs: Option<u64>,
    pub ping_targets: Option<Seq<Seq<char>>>,
}

impl View for RemoteConfig {
    type V = RemoteConfigView;

    open spec fn view(&self) -> RemoteConfigView {
        RemoteConfigView {
            interval_secs: self.interval_secs,
            ping_targets: match self.ping_targets {
                Some(t) => Some(t.deep_view()),
                None => None,
            },
        }
    }
}

/// Only 404 means that there is no override; every other client or server
/// error is a failure; every other status carries the override.
pub proof fn lemma_config_reply_classes(status: u16)
    ensures
        spec_config_reply(status) is NoOverride <==> status == 404,
        spec_config_reply(status) is Failed <==> (400 <= status <= 599 && status != 404),
        spec_config_reply(status) is Override <==> (status < 400 || status > 599),
        spec_is_error_status(status) <==> (400 <= status <= 599),
{
}

/// Trimming removes exactly the trailing run of '/': what is kept is a prefix
/// that does not end in '/', and everything removed is '/'. Text that does not
/// end in '/' is kept whole.
pub proof fn lemma_trim_keeps_all_but_trailing_slashes(s: Seq<char>)
    ensures
        !(s.len() > 0 && s.last() == '/') ==> trim_trailing_slashes(s) == s,
        s.len() > 0 && s.last() == '/' ==> trim_trailing_slashes(s).len() < s.len(),
        trim_trailing_slashes(s) == s.take(trim_trailing_slashes(s).len() as int),
        forall|i: int| trim_trailing_slashes(s).len() <= i < s.len() ==> #[trigger] s[i] == '/',
{
    lemma_trim_trailing_slashes(s);
    if s.len() > 0 && s.last() == '/' {
        lemma_trim_trailing_slashes(s.drop_last());
    }
}

/// The addresses of the collector service that the agent talks to.
pub struct CollectorClient {
    base_url: String,
}

/// The outcome of asking the collector for a configuration override, by the
/// HTTP status of its reply.
pub enum ConfigReply {
    /// The collector holds no override for this agent (404).
    NoOverride,
    /// The reply is an error (any other 4xx or 5xx status).
    Failed,
    /// The reply's body holds the override.
    Override,
}

/// A status in 400..=599 marks a failed request.
pub open spec fn spec_is_error_status(status: u16) -> bool {
    400 <= status <= 599
}

/// How the reply to a configuration request is read.
pub open spec fn spec_config_reply(status: u16) -> ConfigReply {
    if status == 404 {
        ConfigReply::NoOverride
    } else if spec_is_error_status(status) {
        ConfigReply::Failed
    } else {
        ConfigReply::Override
    }
}

/// Whether a reply with this status is a failure (a client or server error).
pub fn is_error_status(status: u16) -> (r: bool)
    ensures
        r == spec_is_error_status(status),
        r <==> (400 <= status && status <= 599),
{
    400 <= status && status <= 599
}

/// How the reply to a configuration request is read: 404 means that the
/// collector has no override for this agent, other error statuses fail, and
/// any other reply carries the override.
pub fn config_reply(status: u16) -> (r: ConfigReply)
    ensures
        r == spec_config_reply(status),
        r is NoOverride <==> status == 404,
        r is Failed <==> (400 <= status && status <= 599 && status != 404),
        r is Override <==> (status < 400 || status > 599),
{
    if status == 404 {
        ConfigReply::NoOverride
    } else if is_error_status(status) {
        ConfigReply::Failed
    } else {
        ConfigReply::Override
    }
}

impl CollectorClient {
    /// The collector's base URL as kept: the one given, without trailing '/'.
    pub closed spec fn base(&self) -> Seq<char> {
        self.base_url@
    }

    /// Makes a client for the collector at `base_url`; trailing '/' are dropped
    /// so that paths can be appended.
    pub fn new(base_url: &str) -> (r: Self)
        ensures
            r.base() == trim_trailing_slashes(base_url@),
            r.base() == base_url@.take(r.base().len() as int),
            !(r.base().len() > 0 && r.base().last() == '/'),
            forall|i: int| r.base().len() <= i < base_url@.len() ==> #[trigger] base_url@[i] == '/',
    {
        proof {
            lemma_trim_trailing_slashes(base_url@);
        }
        let n = base_url.unicode_len();
        let mut k: usize = n;
        proof {
            assert(base_url@.take(n as int) =~= base_url@);
        }
        while k > 0 && base_url.get_char(k - 1) == '/'
            invariant
                k <= n,
                n == base_url@.len(),
                trim_trailing_slashes(base_url@) == trim_trailing_slashes(base_url@.take(k as int)),
            decreases k,
        {
            proof {
                assert(base_url@.take(k as int).drop_last() =~= base_url@.take(k - 1));
            }
            k = k - 1;
        }
        let kept = base_url.substring_char(0, k);
        proof {
            assert(kept@ =~= base_url@.take(k as int));
        }
        CollectorClient { base_url: kept.to_owned() }
    }

    /// The base URL.
    pub fn base_url(&self) -> (r: &str)
        ensures
            r@ == self.base(),
    {
        self.base_url.as_str()
    }

    /// The address metrics are posted to.
    pub fn metrics_url(&self) -> (r: String)
        ensures
            r@ == self.base() + "/metrics"@,
    {
        self.base_url.clone().concat("/metrics")
    }

    /// The address of the configuration override for `agent_id`.
    pub fn config_url(&self, agent_id: &str) -> (r: String)
        ensures
            r@ == self.base() + "/config/"@ + agent_id@,
    {
        self.base_url.clone().concat("/config/").concat(agent_id)
    }
}

} // verus!
