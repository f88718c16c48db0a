//! The intercepting proxy that sits between a client and the upstream to see
//! one cookie go by: the steps of a connection, the cookie it waits for, and
//! the certificates it forges.

use crate::text::{is_prefix, prefix_len, str_eq, take_until, until};
use vstd::prelude::*;
use vstd::string::*;

verus! {

/// Where a connection stands.
#[derive(Clone, Copy, Debug, PartialEq, Eq, Structural)]
pub enum Stage {
    /// Waiting for a client.
    Listening,
    /// A client has connected.
    Accepted,
    /// The server name that the client asks for is known.
    SniSniffed,
    /// A certificate for that name is at hand.
    CertForged,
    /// TLS is up toward the client and toward the upstream.
    TlsEstablished,
    /// Bytes are copied both ways.
    Relaying,
    /// The connection has ended.
    Closed,
}

/// What happened to a connection.
#[derive(Clone, Copy, Debug, PartialEq, Eq, Structural)]
pub enum Event {
    /// The step that was asked for succeeded.
    Done,
    /// The step that was asked for failed.
    Failed,
    /// One side has sent its last byte.
    Eof,
    /// The process is shutting down.
    Shutdown,
}

/// What to do next for a connection.
#[derive(Clone, Copy, Debug, PartialEq, Eq, Structural)]
pub enum Action {
    /// Accept a client.
    Accept,
    /// Peek at the client's first message for the server name.
    PeekSni,
    /// Get a certificate for the server name.
    Forge,
    /// Finish both TLS handshakes.
    Handshake,
    /// Start copying bytes both ways.
    StartRelay,
    /// Go on copying.
    Relay,
    /// Close both sides and report why if a step failed.
    Close,
    /// Nothing: the connection is gone.
    Nothing,
}

impl Stage {
    /// The place of a stage in the order of a connection's life.
    pub open spec fn rank(self) -> int {
        match self {
            Stage::Listening => 0,
            Stage::Accepted => 1,
            Stage::SniSniffed => 2,
            Stage::CertForged => 3,
            Stage::TlsEstablished => 4,
            Stage::Relaying => 5,
            Stage::Closed => 6,
        }
    }

    /// The stage after an event. Success moves one stage on, and keeps a
    /// relay going; a failure, the end of either side, and a shutdown close
    /// the connection at whatever stage it is.
    pub open spec fn next(self, event: Event) -> Stage {
        match event {
            Event::Done => match self {
                Stage::Listening => Stage::Accepted,
                Stage::Accepted => Stage::SniSniffed,
                Stage::SniSniffed => Stage::CertForged,
                Stage::CertForged => Stage::TlsEstablished,
                Stage::TlsEstablished => Stage::Relaying,
                Stage::Relaying => Stage::Relaying,
                Stage::Closed => Stage::Closed,
            },
            _ => Stage::Closed,
        }
    }

    /// What is done on entering a stage from `before`.
    pub open spec fn action(self, before: Stage) -> Action {
        match self {
            Stage::Listening => Action::Accept,
            Stage::Accepted => Action::PeekSni,
            Stage::SniSniffed => Action::Forge,
            Stage::CertForged => Action::Handshake,
            Stage::TlsEstablished => Action::StartRelay,
            Stage::Relaying => Action::Relay,
            Stage::Closed => if before == Stage::Closed {
                Action::Nothing
            } else {
                Action::Close
            },
        }
    }

    /// Takes an event at this stage and gives the stage that follows and
    /// what to do there.
    pub fn advance(self, event: Event) -> (step: (Stage, Action))
        ensures
            step.0 == self.next(event),
            step.1 == self.next(event).action(self),
    {
        let next = match event {
            Event::Done => match self {
                Stage::Listening => Stage::Accepted,
                Stage::Accepted => Stage::SniSniffed,
                Stage::SniSniffed => Stage::CertForged,
                Stage::CertForged => Stage::TlsEstablished,
                Stage::TlsEstablished => Stage::Relaying,
                Stage::Relaying => Stage::Relaying,
                Stage::Closed => Stage::Closed,
            },
            _ => Stage::Closed,
        };
        let action = match next {
            Stage::Listening => Action::Accept,
            Stage::Accepted => Action::PeekSni,
            Stage::SniSniffed => Action::Forge,
            Stage::CertForged => Action::Handshake,
            Stage::TlsEstablished => Action::StartRelay,
            Stage::Relaying => Action::Relay,
            Stage::Closed => match self {
                Stage::Closed => Action::Nothing,
                _ => Action::Close,
            },
        };
        (next, action)
    }
}

/// A connection only moves forward, one stage at a time or straight to its
/// end; once closed it stays closed and asks for nothing; and a shutdown
/// closes it at once, also in the middle of a relay.
pub proof fn law_connection_moves_forward(stage: Stage, event: Event)
    ensures
        stage.next(event).rank() >= stage.rank(),
        stage.next(event).rank() == stage.rank() + 1 || stage.next(event) == Stage::Closed
            || stage == Stage::Relaying,
        Stage::Closed.next(event) == Stage::Closed,
        Stage::Closed.next(event).action(Stage::Closed) == Action::Nothing,
        stage.next(Event::Shutdown) == Stage::Closed,
        stage.next(Event::Failed) == Stage::Closed,
        stage != Stage::Closed ==> stage.next(Event::Shutdown).action(stage) == Action::Close,
{
}

/// The value of the cookie `name` in the value of a `Set-Cookie` header,
/// which starts with the cookie's name, `=` and its value up to the first
/// `;`. Nothing where the header sets another cookie.
pub open spec fn cookie_value(header: Seq<char>, name: Seq<char>) -> Option<Seq<char>> {
    if is_prefix(name + seq!['='], header) {
        Some(until(header.skip(name.len() as int + 1), ';'))
    } else {
        None
    }
}

/// Reads the value of the cookie `name` from the value of a `Set-Cookie`
/// header, if the header sets that cookie.
pub fn read_cookie(header: &str, name: &str) -> (value: Option<String>)
    ensures
        match value {
            Some(v) => cookie_value(header@, name@) == Some(v@),
            None => cookie_value(header@, name@) is None,
        },
{
    let marked = name.to_owned().concat("=");
    proof {
        reveal_strlit("=");
        assert("="@ =~= seq!['=']);
    }
    match prefix_len(marked.as_str(), header) {
        Some(n) => Some(take_until(header, n, ';')),
        None => None,
    }
}

/// The cookie that the proxy waits for, and its value once it was seen.
pub struct Capture {
    name: String,
    value: Option<String>,
}

/// What is known of the awaited cookie.
pub struct CaptureModel {
    /// The cookie's name.
    pub name: Seq<char>,
    /// The value that was seen first, if any was.
    pub value: Option<Seq<char>>,
}

impl View for Capture {
    type V = CaptureModel;

    closed spec fn view(&self) -> CaptureModel {
        CaptureModel {
            name: self.name@,
            value: match self.value {
                Some(v) => Some(v@),
                None => None,
            },
        }
    }
}

impl CaptureModel {
    /// What a header that goes by leaves behind: the first value seen stays.
    pub open spec fn after(self, header: Seq<char>) -> CaptureModel {
        match self.value {
            Some(_) => self,
            None => CaptureModel { value: cookie_value(header, self.name), ..self },
        }
    }

    /// The value that a header that goes by makes known to the rest of the
    /// process: the cookie's value when it is seen for the first time.
    pub open spec fn published(self, header: Seq<char>) -> Option<Seq<char>> {
        match self.value {
            Some(_) => None,
            None => cookie_value(header, self.name),
        }
    }
}

impl Capture {
    /// Waits for the cookie `name`.
    pub fn new(name: String) -> (capture: Self)
        ensures
            capture@ == (CaptureModel { name: name@, value: None }),
    {
        Capture { name, value: None }
    }

    /// The value that was seen, if any was.
    pub fn value(&self) -> (value: Option<&str>)
        ensures
            match value {
                Some(v) => self@.value == Some(v@),
                None => self@.value is None,
            },
    {
        match &self.value {
            Some(v) => Some(v.as_str()),
            None => None,
        }
    }

    /// Looks at the value of one `Set-Cookie` header of the upstream's
    /// answer. The first time the awaited cookie goes by, its value is kept
    /// and handed back to be made known once; after that nothing is looked
    /// for any more.
    pub fn observe(&mut self, header: &str) -> (publish: Option<String>)
        ensures
            final(self)@ == old(self)@.after(header@),
            match publish {
                Some(v) => old(self)@.published(header@) == Some(v@),
                None => old(self)@.published(header@) is None,
            },
    {
        if self.value.is_some() {
            return None;
        }
        match read_cookie(header, self.name.as_str()) {
            Some(v) => {
                self.value = Some(v.clone());
                Some(v)
            },
            None => None,
        }
    }
}

/// The cookie is made known at most once: after a value was published,
/// nothing that goes by is published or changes what is kept.
pub proof fn law_capture_once(capture: CaptureModel, first: Seq<char>, later: Seq<char>)
    requires
        capture.published(first) is Some,
    ensures
        capture.after(first).value == capture.published(first),
        capture.after(first).published(later) is None,
        capture.after(first).after(later) == capture.after(first),
{
}

/// A leaf certificate and its key, as the signer made them.
pub struct Forged {
    /// The host that the certificate is for.
    host: String,
    /// The certificate.
    certificate: Vec<u8>,
    /// The private key.
    private_key: Vec<u8>,
}

impl Forged {
    /// The certificate and the key.
    pub closed spec fn pair(self) -> (Seq<u8>, Seq<u8>) {
        (self.certificate@, self.private_key@)
    }

    /// The host that the certificate is for.
    pub closed spec fn host_of(self) -> Seq<char> {
        self.host@
    }

    /// The certificate.
    pub fn certificate(&self) -> (bytes: &Vec<u8>)
        ensures
            bytes@ == self.pair().0,
    {
        &self.certificate
    }

    /// The private key.
    pub fn private_key(&self) -> (bytes: &Vec<u8>)
        ensures
            bytes@ == self.pair().1,
    {
        &self.private_key
    }
}

spec fn forged_for(held: Seq<Forged>, host: Seq<char>) -> bool {
    exists|i: int| 0 <= i < held.len() && #[trigger] held[i].host@ == host
}

spec fn first_for(held: Seq<Forged>, host: Seq<char>) -> int {
    choose|i: int| 0 <= i < held.len() && #[trigger] held[i].host@ == host
}

spec fn one_per_host(held: Seq<Forged>) -> bool {
    forall|i: int, j: int|
        0 <= i < held.len() && 0 <= j < held.len() && #[trigger] held[i].host@
            == #[trigger] held[j].host@ ==> i == j
}

/// The certificates forged so far, one for each host.
pub struct CertCache {
    held: Vec<Forged>,
}

impl View for CertCache {
    type V = Map<Seq<char>, (Seq<u8>, Seq<u8>)>;

    closed spec fn view(&self) -> Map<Seq<char>, (Seq<u8>, Seq<u8>)> {
        Map::new(
            |host: Seq<char>| forged_for(self.held@, host),
            |host: Seq<char>| self.held@[first_for(self.held@, host)].pair(),
        )
    }
}

/// What is done for a host on a new connection.
#[derive(Clone, Copy, Debug, PartialEq, Eq, Structural)]
pub enum Forging {
    /// The certificate that was forged before is used again.
    Reuse,
    /// The signer is asked for a certificate.
    Sign,
}

impl CertCache {
    #[verifier::type_invariant]
    spec fn inv(self) -> bool {
        one_per_host(self.held@)
    }

    /// A cache that holds nothing.
    pub fn new() -> (cache: Self)
        ensures
            cache@ == Map::<Seq<char>, (Seq<u8>, Seq<u8>)>::empty(),
    {
        let cache = CertCache { held: Vec::new() };
        assert(cache@ =~= Map::<Seq<char>, (Seq<u8>, Seq<u8>)>::empty());
        cache
    }

    fn find(&self, host: &str) -> (found: Option<usize>)
        ensures
            match found {
                Some(i) => i < self.held@.len() && self.held@[i as int].host@ == host@,
                None => !forged_for(self.held@, host@),
            },
    {
        let mut i: usize = 0;
        while i < self.held.len()
            invariant
                i <= self.held@.len(),
                forall|j: int| 0 <= j < i ==> (#[trigger] self.held@[j]).host@ != host@,
            decreases self.held@.len() - i,
        {
            if str_eq(self.held[i].host.as_str(), host) {
                return Some(i);
            }
            i += 1;
        }
        None
    }

    /// The certificate that was forged for `host`, if one was.
    pub fn get(&self, host: &str) -> (found: Option<&Forged>)
        ensures
            match found {
                Some(forged) => self@.contains_key(host@) && self@[host@] == forged.pair()
                    && forged.host_of() == host@,
                None => !self@.contains_key(host@),
            },
    {
        proof {
            use_type_invariant(self);
        }
        match self.find(host) {
            Some(i) => {
                assert(first_for(self.held@, host@) == i);
                Some(&self.held[i])
            },
            None => None,
        }
    }

    /// Whether a connection for `host` needs the signer.
    pub fn plan(&self, host: &str) -> (forging: Forging)
        ensures
            forging == (if self@.contains_key(host@) {
                Forging::Reuse
            } else {
                Forging::Sign
            }),
    {
        match self.find(host) {
            Some(_) => Forging::Reuse,
            None => Forging::Sign,
        }
    }

    /// Keeps what the signer made for `host`, unless a certificate for that
    /// host is held already: the first one stays. Says whether it was kept.
    pub fn store(&mut self, host: &str, certificate: Vec<u8>, private_key: Vec<u8>) -> (kept: bool)
        ensures
            kept == !old(self)@.contains_key(host@),
            final(self)@ == stored(old(self)@, host@, (certificate@, private_key@)),
    {
        proof {
            use_type_invariant(&*self);
        }
        match self.find(host) {
            Some(_) => false,
            None => {
                let ghost before = self.held@;
                let forged = Forged { host: host.to_owned(), certificate, private_key };
                let mut held: Vec<Forged> = Vec::new();
                std::mem::swap(&mut held, &mut self.held);
                held.push(forged);
                proof {
                    let after = held@;
                    assert forall|i: int, j: int|
                        0 <= i < after.len() && 0 <= j < after.len() && #[trigger] after[i].host@
                            == #[trigger] after[j].host@ implies i == j by {
                        if i < before.len() {
                            assert(before[i].host@ == after[i].host@);
                        }
                        if j < before.len() {
                            assert(before[j].host@ == after[j].host@);
                        }
                    }
                    assert forall|h: Seq<char>| forged_for(after, h) == (forged_for(before, h) || h
                        == host@) by {
                        if forged_for(after, h) {
                            let i = first_for(after, h);
                            if i < before.len() {
                                assert(before[i].host@ == h);
                            }
                        }
                        if forged_for(before, h) {
                            let i = first_for(before, h);
                            assert(after[i].host@ == h);
                        }
                        if h == host@ {
                            assert(after[before.len() as int].host@ == h);
                        }
                    }
                    assert forall|h: Seq<char>| forged_for(before, h) implies after[first_for(
                        after,
                        h,
                    )].pair() == before[first_for(before, h)].pair() by {
                        let i = first_for(before, h);
                        assert(after[i].host@ == h);
                        let j = first_for(after, h);
                        assert(after[j].host@ == after[i].host@);
                    }
                    assert(forged_for(after, host@));
                    assert(after[first_for(after, host@)].host@ == after[before.len() as int].host@);
                }
                self.held = held;
                assert(self@ =~= old(self)@.insert(host@, (certificate@, private_key@)));
                true
            },
        }
    }
}

/// A host's certificate is forged once: whatever is stored for the host
/// later, the cache holds what was stored first.
pub proof fn law_certificate_is_forged_once(
    cache: Map<Seq<char>, (Seq<u8>, Seq<u8>)>,
    host: Seq<char>,
    first: (Seq<u8>, Seq<u8>),
    second: (Seq<u8>, Seq<u8>),
)
    requires
        !cache.contains_key(host),
    ensures
        stored(stored(cache, host, first), host, second) == stored(cache, host, first),
        stored(cache, host, first)[host] == first,
{
}

/// The cache after something is stored for a host.
pub open spec fn stored(
    cache: Map<Seq<char>, (Seq<u8>, Seq<u8>)>,
    host: Seq<char>,
    pair: (Seq<u8>, Seq<u8>),
) -> Map<Seq<char>, (Seq<u8>, Seq<u8>)> {
    if cache.contains_key(host) {
        cache
    } else {
        cache.insert(host, pair)
    }
}

} // verus!
