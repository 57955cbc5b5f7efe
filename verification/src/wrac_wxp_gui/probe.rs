//! Whether a frontend can be reached before a GUI navigates to it.

use vstd::prelude::*;

use crate::text::{
    decimal, decimal_text, join, join2, join3, joined, lower, same_text, texts, to_ascii_lowercase,
};
use crate::wrac_wxp_gui::session::UrlProbeError;

verus! {

/// The host of a URL. An address is held as a number, with the text that shows it.
#[derive(Debug)]
#[allow(inconsistent_fields)]
pub enum UrlHost {
    Domain { name: String },
    Ipv4 { address: u32, text: String },
    Ipv6 { address: u128, text: String },
}

/// The parts of a URL that a probe looks at.
#[derive(Debug)]
pub struct ParsedUrl {
    /// The URL in its normal form.
    pub text: String,
    pub scheme: String,
    pub host: Option<UrlHost>,
    /// The port that the URL names, or that its scheme implies.
    pub port: Option<u16>,
}

/// What the host of a URL is.
#[allow(inconsistent_fields)]
pub ghost enum Host {
    Domain { name: Seq<char> },
    Ipv4 { address: u32, text: Seq<char> },
    Ipv6 { address: u128, text: Seq<char> },
}

/// What the parts of a URL are.
pub ghost struct UrlParts {
    pub text: Seq<char>,
    pub scheme: Seq<char>,
    pub host: Option<Host>,
    pub port: Option<u16>,
}

impl View for UrlHost {
    type V = Host;

    open spec fn view(&self) -> Host {
        match self {
            UrlHost::Domain { name } => Host::Domain { name: name@ },
            UrlHost::Ipv4 { address, text } => Host::Ipv4 { address: *address, text: text@ },
            UrlHost::Ipv6 { address, text } => Host::Ipv6 { address: *address, text: text@ },
        }
    }
}

impl View for ParsedUrl {
    type V = UrlParts;

    open spec fn view(&self) -> UrlParts {
        UrlParts {
            text: self.text@,
            scheme: self.scheme@,
            host: match self.host {
                Some(host) => Some(host@),
                None => None,
            },
            port: self.port,
        }
    }
}

/// What parsing a text as a URL gives: the parts of the URL, or the text of the error.
pub uninterp spec fn url_parse(text: Seq<char>) -> Result<UrlParts, Seq<char>>;

/// Parses `text` by `url::Url::parse` and hands out what the accessors of the URL return: its
/// normal form, its scheme, its host and its port or the default port of its scheme. The claim
/// is that the outcome depends on the text alone.
#[verifier::external_body]
fn parse_url(text: &str) -> (result: Result<ParsedUrl, String>)
    ensures
        match result {
            Ok(url) => url_parse(text@) == Ok::<UrlParts, Seq<char>>(url@),
            Err(error) => url_parse(text@) == Err::<UrlParts, Seq<char>>(error@),
        },
{
    let url = url::Url::parse(text).map_err(|error| error.to_string())?;
    let host = url.host().map(|host| match host {
        url::Host::Domain(name) => UrlHost::Domain { name: name.to_string() },
        url::Host::Ipv4(ip) => UrlHost::Ipv4 { address: u32::from(ip), text: ip.to_string() },
        url::Host::Ipv6(ip) => UrlHost::Ipv6 { address: u128::from(ip), text: ip.to_string() },
    });
    let (scheme, port) = (url.scheme().to_string(), url.port_or_known_default());
    Ok(ParsedUrl { text: url.as_str().to_string(), scheme, host, port })
}

/// An IP address as a number.
#[derive(Debug, Clone, Copy, PartialEq, Eq, Structural)]
pub enum ProbeIp {
    V4(u32),
    V6(u128),
}

/// An endpoint to connect to, with the text that shows it.
#[derive(Debug)]
pub struct ProbeAddress {
    pub ip: ProbeIp,
    pub port: u16,
    pub text: String,
}

/// The endpoints of a frontend, and how they are shown as a whole.
#[derive(Debug)]
pub struct ProbeTarget {
    pub addresses: Vec<ProbeAddress>,
    pub display: String,
}

/// What an endpoint is.
pub ghost struct Endpoint {
    pub ip: ProbeIp,
    pub port: u16,
    pub text: Seq<char>,
}

impl View for ProbeAddress {
    type V = Endpoint;

    open spec fn view(&self) -> Endpoint {
        Endpoint { ip: self.ip, port: self.port, text: self.text@ }
    }
}

/// What the endpoints of a list are.
pub open spec fn endpoints(list: Seq<ProbeAddress>) -> Seq<Endpoint> {
    Seq::new(list.len(), |i: int| list[i]@)
}

/// What a target is.
pub ghost struct Target {
    pub endpoints: Seq<Endpoint>,
    pub display: Seq<char>,
}

impl View for ProbeTarget {
    type V = Target;

    open spec fn view(&self) -> Target {
        Target { endpoints: endpoints(self.addresses@), display: self.display@ }
    }
}

/// What an error says: the endpoint and the text.
pub ghost struct Trouble {
    pub target: Seq<char>,
    pub error: Seq<char>,
}

/// What an error says.
pub open spec fn trouble_of(error: UrlProbeError) -> Trouble {
    Trouble { target: error.target@, error: error.error@ }
}

/// `text:port`.
pub open spec fn with_port(text: Seq<char>, port: u16) -> Seq<char> {
    text + ":"@ + decimal(port as nat)
}

/// `[text]`.
pub open spec fn bracketed(text: Seq<char>) -> Seq<char> {
    "["@ + text + "]"@
}

/// The endpoint of an IPv4 address.
pub open spec fn ipv4_endpoint(address: u32, text: Seq<char>, port: u16) -> Endpoint {
    Endpoint { ip: ProbeIp::V4(address), port, text: with_port(text, port) }
}

/// The endpoint of an IPv6 address.
pub open spec fn ipv6_endpoint(address: u128, text: Seq<char>, port: u16) -> Endpoint {
    Endpoint { ip: ProbeIp::V6(address), port, text: with_port(bracketed(text), port) }
}

/// The endpoints that can be probed for a host and a port without asking a name server: those
/// of an address, and the two of `localhost`. Other names have none.
pub open spec fn target_of(host: Host, port: u16) -> Option<Target> {
    match host {
        Host::Domain { name } => if lower(name) == "localhost"@ {
            Some(
                Target {
                    endpoints: seq![
                        ipv4_endpoint(0x7f00_0001, "127.0.0.1"@, port),
                        ipv6_endpoint(1, "::1"@, port),
                    ],
                    display: with_port(name, port),
                },
            )
        } else {
            None
        },
        Host::Ipv4 { address, text } => Some(
            Target {
                endpoints: seq![ipv4_endpoint(address, text, port)],
                display: with_port(text, port),
            },
        ),
        Host::Ipv6 { address, text } => Some(
            Target {
                endpoints: seq![ipv6_endpoint(address, text, port)],
                display: with_port(bracketed(text), port),
            },
        ),
    }
}

/// What is to be probed for a URL.
pub open spec fn probe_target_of(url: UrlParts) -> Result<Option<Target>, Trouble> {
    match url.host {
        None => Err(Trouble { target: url.text, error: "URL has no host"@ }),
        Some(host) => match url.port {
            None => Err(
                Trouble {
                    target: url.text,
                    error: "URL scheme has no known default port: "@ + url.scheme,
                },
            ),
            Some(port) => Ok(target_of(host, port)),
        },
    }
}

fn show_with_port(text: &str, port: u16) -> (shown: String)
    ensures
        shown@ == with_port(text@, port),
{
    join3(text, ":", decimal_text(port as u64).as_str())
}

fn ipv4_address(address: u32, text: &str, port: u16) -> (result: ProbeAddress)
    ensures
        result@ == ipv4_endpoint(address, text@, port),
{
    ProbeAddress { ip: ProbeIp::V4(address), port, text: show_with_port(text, port) }
}

fn ipv6_address(address: u128, text: &str, port: u16) -> (result: ProbeAddress)
    ensures
        result@ == ipv6_endpoint(address, text@, port),
{
    ProbeAddress {
        ip: ProbeIp::V6(address),
        port,
        text: show_with_port(join3("[", text, "]").as_str(), port),
    }
}

/// The endpoints of a URL that can be probed. A name other than `localhost` is not probed, since
/// asking a name server could block the host.
pub fn probe_target(url: &ParsedUrl) -> (result: Result<Option<ProbeTarget>, UrlProbeError>)
    ensures
        match result {
            Ok(Some(target)) => probe_target_of(url@) == Ok::<Option<Target>, Trouble>(
                Some(target@),
            ),
            Ok(None) => probe_target_of(url@) == Ok::<Option<Target>, Trouble>(None),
            Err(error) => probe_target_of(url@) == Err::<Option<Target>, Trouble>(
                trouble_of(error),
            ),
        },
{
    let host = match &url.host {
        Some(host) => host,
        None => {
            return Err(
                UrlProbeError { target: url.text.clone(), error: "URL has no host".to_owned() },
            );
        },
    };
    let port: u16 = match url.port {
        Some(port) => port,
        None => {
            return Err(
                UrlProbeError {
                    target: url.text.clone(),
                    error: join2("URL scheme has no known default port: ", url.scheme.as_str()),
                },
            );
        },
    };
    let mut addresses: Vec<ProbeAddress> = Vec::new();
    match host {
        UrlHost::Domain { name } => {
            if !same_text(to_ascii_lowercase(name.as_str()).as_str(), "localhost") {
                return Ok(None);
            }
            addresses.push(ipv4_address(0x7f00_0001, "127.0.0.1", port));
            addresses.push(ipv6_address(1, "::1", port));
            let display = show_with_port(name.as_str(), port);
            assert(endpoints(addresses@) =~= seq![addresses@[0]@, addresses@[1]@]);
            Ok(Some(ProbeTarget { addresses, display }))
        },
        UrlHost::Ipv4 { address, text } => {
            addresses.push(ipv4_address(*address, text.as_str(), port));
            let display = show_with_port(text.as_str(), port);
            assert(endpoints(addresses@) =~= seq![addresses@[0]@]);
            Ok(Some(ProbeTarget { addresses, display }))
        },
        UrlHost::Ipv6 { address, text } => {
            addresses.push(ipv6_address(*address, text.as_str(), port));
            let shown = join3("[", text.as_str(), "]");
            let display = show_with_port(shown.as_str(), port);
            assert(endpoints(addresses@) =~= seq![addresses@[0]@]);
            Ok(Some(ProbeTarget { addresses, display }))
        },
    }
}

/// What is to be probed for a parsed URL: nothing where its scheme is not one of the web, since
/// the GUI serves those itself.
pub open spec fn plan_of(url: UrlParts) -> Result<Option<Target>, Trouble> {
    if url.scheme == "http"@ || url.scheme == "https"@ {
        probe_target_of(url)
    } else {
        Ok(None)
    }
}

/// What is to be probed for the text of a URL.
pub open spec fn plan_for(text: Seq<char>) -> Result<Option<Target>, Trouble> {
    match url_parse(text) {
        Ok(url) => plan_of(url),
        Err(error) => Err(Trouble { target: text, error: "URL parse failed: "@ + error }),
    }
}

/// What is to be probed for a parsed URL, or `None` where it is opened without a probe.
pub fn plan_parsed(url: &ParsedUrl) -> (result: Result<Option<ProbeTarget>, UrlProbeError>)
    ensures
        match result {
            Ok(Some(target)) => plan_of(url@) == Ok::<Option<Target>, Trouble>(Some(target@)),
            Ok(None) => plan_of(url@) == Ok::<Option<Target>, Trouble>(None),
            Err(error) => plan_of(url@) == Err::<Option<Target>, Trouble>(trouble_of(error)),
        },
{
    if same_text(url.scheme.as_str(), "http") || same_text(url.scheme.as_str(), "https") {
        probe_target(url)
    } else {
        Ok(None)
    }
}

/// What is to be probed before a GUI navigates to `url`, or `None` where it is opened without a
/// probe.
pub fn plan_probe(url: &str) -> (result: Result<Option<ProbeTarget>, UrlProbeError>)
    ensures
        match result {
            Ok(Some(target)) => plan_for(url@) == Ok::<Option<Target>, Trouble>(Some(target@)),
            Ok(None) => plan_for(url@) == Ok::<Option<Target>, Trouble>(None),
            Err(error) => plan_for(url@) == Err::<Option<Target>, Trouble>(trouble_of(error)),
        },
{
    match parse_url(url) {
        Ok(parsed) => plan_parsed(&parsed),
        Err(error) => Err(
            UrlProbeError {
                target: url.to_owned(),
                error: join2("URL parse failed: ", error.as_str()),
            },
        ),
    }
}

// Trying the endpoints

/// A probe of the endpoints of a target, one after the other.
#[derive(Debug)]
pub struct ProbeRun {
    target: ProbeTarget,
    position: usize,
    errors: Vec<String>,
}

/// What a probe does next.
#[derive(Debug)]
pub enum ProbeStep {
    /// Connect to the endpoint at this position within this time, in nanoseconds.
    Connect { position: usize, remaining: u64 },
    /// No endpoint could be reached.
    Unreachable { error: UrlProbeError },
}

impl ProbeRun {
    /// The target.
    pub closed spec fn target(self) -> Target {
        self.target@
    }

    /// How many endpoints have refused.
    pub closed spec fn tried(self) -> int {
        self.position as int
    }

    /// Why the endpoints refused.
    pub closed spec fn refusals(self) -> Seq<Seq<char>> {
        texts(self.errors@)
    }

    #[verifier::type_invariant]
    spec fn position_is_within(self) -> bool {
        self.position <= self.target.addresses@.len()
    }

    /// Begins a probe, unless there is nothing to connect to.
    pub fn start(target: ProbeTarget) -> (result: Result<Self, UrlProbeError>)
        ensures
            match result {
                Ok(run) => {
                    &&& target@.endpoints.len() > 0
                    &&& run.target() == target@
                    &&& run.tried() == 0
                    &&& run.refusals() == Seq::<Seq<char>>::empty()
                },
                Err(error) => {
                    &&& target@.endpoints.len() == 0
                    &&& error.target@ == target@.display
                    &&& error.error@ == "probe target produced no socket addresses"@
                },
            },
    {
        if target.addresses.is_empty() {
            return Err(
                UrlProbeError {
                    target: target.display,
                    error: "probe target produced no socket addresses".to_owned(),
                },
            );
        }
        let errors: Vec<String> = Vec::new();
        assert(texts(errors@) =~= Seq::<Seq<char>>::empty());
        Ok(ProbeRun { target, position: 0, errors })
    }

    /// The endpoint at a position.
    pub fn address(&self, position: usize) -> (address: &ProbeAddress)
        requires
            position < self.target().endpoints.len(),
        ensures
            address@ == self.target().endpoints[position as int],
    {
        &self.target.addresses[position]
    }

    /// What the probe says when it ends after the errors `refusals`.
    pub open spec fn unreachable(self, refusals: Seq<Seq<char>>) -> Trouble {
        Trouble { target: self.target().display, error: joined(refusals, "; "@) }
    }

    /// What to do next, after `elapsed` of `timeout` nanoseconds: the next endpoint within what
    /// is left of the time, or the end of the probe.
    pub fn next_step(&self, elapsed: u64, timeout: u64) -> (step: ProbeStep)
        ensures
            self.tried() <= self.target().endpoints.len(),
            match step {
                ProbeStep::Connect { position, remaining } => {
                    &&& position == self.tried() < self.target().endpoints.len()
                    &&& elapsed < timeout
                    &&& remaining == timeout - elapsed
                },
                ProbeStep::Unreachable { error } => if self.tried()
                    == self.target().endpoints.len() {
                    trouble_of(error) == self.unreachable(self.refusals())
                } else {
                    &&& elapsed >= timeout
                    &&& trouble_of(error) == self.unreachable(
                        self.refusals().push(
                            self.target().endpoints[self.tried()].text
                                + ": probe timeout elapsed"@,
                        ),
                    )
                },
            },
    {
        proof {
            use_type_invariant(self);
        }
        if self.position < self.target.addresses.len() {
            if elapsed < timeout {
                return ProbeStep::Connect { position: self.position, remaining: timeout - elapsed };
            }
            let mut errors: Vec<String> = Vec::new();
            let mut i: usize = 0;
            while i < self.errors.len()
                invariant
                    i <= self.errors@.len(),
                    errors@.len() == i,
                    forall|k: int| 0 <= k < i ==> #[trigger] errors@[k]@ == self.errors@[k]@,
                decreases self.errors@.len() - i,
            {
                errors.push(self.errors[i].clone());
                i += 1;
            }
            let ghost before = errors@;
            assert(texts(before) =~= self.refusals());
            errors.push(
                join2(
                    self.target.addresses[self.position].text.as_str(),
                    ": probe timeout elapsed",
                ),
            );
            assert(texts(errors@) =~= texts(before).push(errors@.last()@));
            return ProbeStep::Unreachable {
                error: UrlProbeError {
                    target: self.target.display.clone(),
                    error: join(&errors, "; "),
                },
            };
        }
        ProbeStep::Unreachable {
            error: UrlProbeError {
                target: self.target.display.clone(),
                error: join(&self.errors, "; "),
            },
        }
    }

    /// Notes that the endpoint in turn refused.
    pub fn refused(&mut self, error: &str)
        requires
            old(self).tried() < old(self).target().endpoints.len(),
        ensures
            final(self).target() == old(self).target(),
            final(self).tried() == old(self).tried() + 1,
            final(self).refusals() == old(self).refusals().push(
                old(self).target().endpoints[old(self).tried()].text + ": "@ + error@,
            ),
    {
        let count: usize = self.target.addresses.len();
        let message = join3(
            self.target.addresses[self.position].text.as_str(),
            ": ",
            error,
        );
        let ghost before = self.errors@;
        let mut errors: Vec<String> = Vec::new();
        std::mem::swap(&mut errors, &mut self.errors);
        errors.push(message);
        assert(texts(errors@) =~= texts(before).push(message@));
        self.errors = errors;
        if self.position < count {
            self.position = self.position + 1;
        }
    }
}

/// A frontend that is no page of the web is opened without a probe, and so is one at a name that
/// only a name server knows.
pub proof fn names_and_other_schemes_are_not_probed(
    url: ParsedUrl,
    result: Result<Option<ProbeTarget>, UrlProbeError>,
)
    requires
        call_ensures(plan_parsed, (&url,), result),
    ensures
        url.scheme@ != "http"@ && url.scheme@ != "https"@ ==> result == Ok::<
            Option<ProbeTarget>,
            UrlProbeError,
        >(None),
        url@.host matches Some(Host::Domain { name }) ==> (lower(name) != "localhost"@ && url.port
            is Some ==> result == Ok::<Option<ProbeTarget>, UrlProbeError>(None)),
        (url.scheme@ == "http"@ || url.scheme@ == "https"@) && url.host is None ==> (result
            matches Err(error) && error.target@ == url.text@ && error.error@ == "URL has no host"@),
        (url.scheme@ == "http"@ || url.scheme@ == "https"@) && url.host is Some && url.port is None
            ==> (result matches Err(error) && error.target@ == url.text@ && error.error@
            == "URL scheme has no known default port: "@ + url.scheme@),
{
}

/// An address is probed at the port of its URL, and shown with that port; an address of the newer
/// kind is shown in brackets. `localhost` is probed at both loopback addresses, however it is
/// written.
pub proof fn addresses_are_probed_at_their_port(
    url: ParsedUrl,
    port: u16,
    result: Result<Option<ProbeTarget>, UrlProbeError>,
)
    requires
        call_ensures(plan_parsed, (&url,), result),
        url.scheme@ == "http"@ || url.scheme@ == "https"@,
        url.port == Some(port),
    ensures
        url@.host matches Some(Host::Ipv4 { address, text }) ==> (result matches Ok(Some(target)) && {
            let shown = text + ":"@ + decimal(port as nat);
            &&& target.addresses@.len() == 1
            &&& target.addresses@[0].ip == ProbeIp::V4(address)
            &&& target.addresses@[0].port == port
            &&& target.addresses@[0].text@ == shown
            &&& target.display@ == shown
        }),
        url@.host matches Some(Host::Ipv6 { address, text }) ==> (result matches Ok(Some(target)) && {
            let shown = "["@ + text + "]"@ + ":"@ + decimal(port as nat);
            &&& target.addresses@.len() == 1
            &&& target.addresses@[0].ip == ProbeIp::V6(address)
            &&& target.addresses@[0].port == port
            &&& target.addresses@[0].text@ == shown
            &&& target.display@ == shown
        }),
        url@.host matches Some(Host::Domain { name }) ==> (lower(name) == "localhost"@ ==> (result
            matches Ok(Some(target)) && {
            &&& target.addresses@.len() == 2
            &&& target.addresses@[0].ip == ProbeIp::V4(0x7f00_0001)
            &&& target.addresses@[1].ip == ProbeIp::V6(1)
            &&& target.addresses@[0].port == port && target.addresses@[1].port == port
            &&& target.addresses@[0].text@ == "127.0.0.1"@ + ":"@ + decimal(port as nat)
            &&& target.addresses@[1].text@ == "["@ + "::1"@ + "]"@ + ":"@ + decimal(port as nat)
            &&& target.display@ == name + ":"@ + decimal(port as nat)
        })),
{
    if let Ok(Some(target)) = result {
        let list = target@.endpoints;
        assert(list.len() == target.addresses@.len());
        if list.len() > 0 {
            assert(list[0] == target.addresses@[0]@);
        }
        if list.len() > 1 {
            assert(list[1] == target.addresses@[1]@);
        }
    }
}

/// A probe connects to the endpoints in turn, each within what is left of the time, and ends once
/// the time is up or every endpoint has refused.
pub proof fn endpoints_are_tried_in_turn(
    run: ProbeRun,
    elapsed: u64,
    timeout: u64,
    step: ProbeStep,
    refused: &mut ProbeRun,
    error: &str,
    next: ProbeStep,
)
    requires
        call_ensures(ProbeRun::next_step, (&run, elapsed, timeout), step),
        *refused == run,
        run.tried() < run.target().endpoints.len(),
        call_ensures(ProbeRun::refused, (refused, error), ()),
        call_ensures(ProbeRun::next_step, (final(refused), elapsed, timeout), next),
    ensures
        step is Connect <==> elapsed < timeout,
        step matches ProbeStep::Connect { position, remaining } ==> position == run.tried()
            && remaining + elapsed == timeout,
        next is Connect <==> elapsed < timeout && run.tried() + 1 < run.target().endpoints.len(),
        next matches ProbeStep::Connect { position, .. } ==> position == run.tried() + 1,
        run.tried() + 1 == run.target().endpoints.len() ==> (next
            matches ProbeStep::Unreachable { error: trouble } && trouble.target@
            == run.target().display && trouble.error@ == joined(final(refused).refusals(), "; "@)),
        final(refused).refusals().last() == run.target().endpoints[run.tried()].text + ": "@
            + error@,
        final(refused).refusals().drop_last() == run.refusals(),
{
}

/// A text that is no URL is refused with what the parser says of it, and any other is probed as its
/// parts say; an endpoint is handed out by its place.
pub proof fn texts_are_probed_as_their_url(
    url: &str,
    result: Result<Option<ProbeTarget>, UrlProbeError>,
    run: ProbeRun,
    position: usize,
    address: &ProbeAddress,
)
    requires
        call_ensures(plan_probe, (url,), result),
        position < run.target().endpoints.len(),
        call_ensures(ProbeRun::address, (&run, position), address),
    ensures
        url_parse(url@) matches Err(error) ==> (result matches Err(trouble) && trouble.target@ == url@
            && trouble.error@ == "URL parse failed: "@ + error),
        url_parse(url@) matches Ok(parts) ==> (parts.scheme != "http"@ && parts.scheme != "https"@
            ==> result matches Ok(None)),
        url_parse(url@) matches Ok(parts) ==> (result is Err <==> plan_of(parts) is Err),
        address.ip == run.target().endpoints[position as int].ip,
        address.port == run.target().endpoints[position as int].port,
        address.text@ == run.target().endpoints[position as int].text,
{
}

} // verus!
