//! The decisions of the CPDB client: which D-Bus services are print
//! backends, which backend a name selects, how the printers reported by
//! several backends are gathered, when a call is retried and how often the
//! backends are kept alive. The D-Bus traffic itself is done by the caller.

use vstd::prelude::*;
use crate::search::lemma_first_with;
use vstd::utf8::encode_utf8;
use crate::error::CpdbError;
use crate::events::{law_snapshot_fields_follow_the_record, snapshot_from_raw, PrinterSnapshot};
use crate::types::state_of_name;
use crate::proxy::RawPrinter;
use crate::text::{chars_of, concat3, has_prefix, starts_with, str_eq};

verus! {

/// Seconds of inactivity after which a CPDB backend exits by itself.
pub const AUTO_EXIT_TIMEOUT_SECS: u64 = 30;

/// Milliseconds to wait before retrying a call that met an unknown method.
pub const RETRY_INTERVAL_MS: u64 = 200;

/// A byte that may stand in an element of a bus name: an ASCII letter or
/// digit, `_` or `-`.
pub open spec fn name_byte(c: u8) -> bool {
    ||| 0x41 <= c <= 0x5A
    ||| 0x61 <= c <= 0x7A
    ||| 0x30 <= c <= 0x39
    ||| c == 0x5F
    ||| c == 0x2D
}

/// `b` is two or more non-empty elements of name bytes joined by dots.
pub open spec fn dotted_elements(b: Seq<u8>) -> bool {
    &&& b.len() > 0
    &&& b[0] != 0x2E
    &&& b[b.len() - 1] != 0x2E
    &&& forall|i: int| 0 <= i < b.len() ==> b[i] == 0x2E || name_byte(#[trigger] b[i])
    &&& forall|i: int| 0 <= i < b.len() - 1 ==> !(#[trigger] b[i] == 0x2E && b[i + 1] == 0x2E)
    &&& exists|i: int| 0 <= i < b.len() && #[trigger] b[i] == 0x2E
}

/// `b` is a unique connection name: `:` and then dotted elements.
pub open spec fn unique_name_form(b: Seq<u8>) -> bool {
    b.len() > 0 && b[0] == 0x3A && dotted_elements(b.subrange(1, b.len() as int))
}

/// `b` is a well-known name: dotted elements, none of which begins with a
/// digit.
pub open spec fn well_known_name_form(b: Seq<u8>) -> bool {
    &&& dotted_elements(b)
    &&& forall|i: int| 0 <= i < b.len() && (i == 0 || b[i - 1] == 0x2E) ==> !(0x30 <= #[trigger] b[i] <= 0x39)
}

/// `name` is a valid D-Bus bus name: in UTF-8 at most 255 bytes, and a
/// unique or a well-known name.
pub open spec fn valid_bus_name(name: Seq<char>) -> bool {
    let b = encode_utf8(name);
    b.len() <= 255 && (unique_name_form(b) || well_known_name_form(b))
}

/// Checks a bus name with `zbus::names::BusName::try_from`.
///
/// Trusted: the contract claims that `try_from` accepts exactly the names
/// that `valid_bus_name` describes, the rules that `zbus_names` checks on
/// the name's UTF-8 bytes (a unique name, or else a well-known name, and at
/// most 255 bytes).
#[verifier::external_body]
fn check_bus_name(name: &str) -> (r: bool)
    ensures
        r == valid_bus_name(name@),
{
    zbus::names::BusName::try_from(name).is_ok()
}

/// The prefix of the D-Bus service names of CPDB backends.
pub open spec fn backend_prefix() -> Seq<char> {
    "org.openprinting.Backend."@
}

/// The position of the last `c` in `s`, or -1.
pub open spec fn last_index_of(s: Seq<char>, c: char) -> int
    decreases s.len(),
{
    if s.len() == 0 {
        -1
    } else if s.last() == c {
        s.len() - 1
    } else {
        last_index_of(s.drop_last(), c)
    }
}

/// Whether the backend with service name `service` is the one that
/// `backend` names: its full service name, or the part after its last dot.
pub open spec fn backend_matches(service: Seq<char>, backend: Seq<char>) -> bool {
    ||| service == backend
    ||| {
        let dot = last_index_of(service, '.');
        dot >= 0 && service.subrange(dot + 1, service.len() as int) == backend
    }
}

/// The characters of each string.
pub open spec fn texts(v: Seq<String>) -> Seq<Seq<char>> {
    v.map_values(|s: String| s@)
}

/// The names kept from `names` when name `i` is kept exactly when it
/// starts with the backend prefix and `valid[i]` holds.
pub open spec fn selected_names(names: Seq<Seq<char>>, valid: Seq<bool>) -> Seq<Seq<char>>
    decreases names.len(),
{
    if names.len() == 0 {
        Seq::empty()
    } else {
        let rest = selected_names(names.drop_last(), valid.subrange(0, names.len() - 1));
        if has_prefix(names.last(), backend_prefix()) && valid[names.len() - 1] {
            rest.push(names.last())
        } else {
            rest
        }
    }
}

/// The printer records of all replies that arrived, in order.
pub open spec fn replied_printers(replies: Seq<Option<Vec<RawPrinter>>>) -> Seq<RawPrinter>
    decreases replies.len(),
{
    if replies.len() == 0 {
        Seq::empty()
    } else {
        let rest = replied_printers(replies.drop_last());
        match replies.last() {
            Some(v) => rest + v@,
            None => rest,
        }
    }
}

/// The position of the first backend that `backend` names, or `None`.
pub open spec fn first_match(services: Seq<Seq<char>>, backend: Seq<char>) -> Option<int> {
    if exists|i: int| 0 <= i < services.len() && backend_matches(services[i], backend) {
        Some(choose|i: int| 0 <= i < services.len() && backend_matches(services[i], backend)
            && forall|j: int| 0 <= j < i ==> !backend_matches(services[j], backend))
    } else {
        None
    }
}

/// The message of the error for a backend name that names no backend.
pub open spec fn no_backend_message(backend: Seq<char>) -> Seq<char> {
    "No backend found matching '"@ + backend + "'"@
}

#[derive(Clone, Debug)]
struct BackendHandle {
    service_name: String,
}

/// The backends a client talks to, by D-Bus service name.
#[derive(Clone, Debug)]
pub struct CpdbClient {
    backends: Vec<BackendHandle>,
}

fn last_dot(s: &Vec<char>) -> (r: Option<usize>)
    ensures
        match r {
            Some(i) => i < s@.len() && i == last_index_of(s@, '.'),
            None => last_index_of(s@, '.') == -1,
        },
{
    let mut i: usize = s.len();
    assert(s@.subrange(0, s@.len() as int) =~= s@);
    while i > 0
        invariant
            i <= s@.len(),
            last_index_of(s@, '.') == last_index_of(s@.subrange(0, i as int), '.'),
        decreases i,
    {
        assert(s@.subrange(0, i - 1) =~= s@.subrange(0, i as int).drop_last());
        if s[i - 1] == '.' {
            return Some(i - 1);
        }
        i = i - 1;
    }
    None
}

/// Whether the backend with service name `service` is the one named by
/// `backend` (its full service name, or the part after its last dot).
pub fn service_matches(service: &str, backend: &str) -> (r: bool)
    ensures
        r == backend_matches(service@, backend@),
{
    if str_eq(service, backend) {
        return true;
    }
    let cs = chars_of(service);
    let cb = chars_of(backend);
    match last_dot(&cs) {
        None => false,
        Some(d) => {
            let n = cs.len();
            assert(d < n);
            let start = d + 1;
            if cs.len() - start != cb.len() {
                assert(service@.subrange(start as int, service@.len() as int).len() != backend@.len());
                return false;
            }
            let mut j: usize = 0;
            while j < cb.len()
                invariant
                    cs@ == service@,
                    cb@ == backend@,
                    start + cb@.len() == cs@.len(),
                    n == cs@.len(),
                    service@ != backend@,
                    start == last_index_of(service@, '.') + 1,
                    j <= cb@.len(),
                    forall|t: int| 0 <= t < j ==> cs@[start + t] == cb@[t],
                decreases cb@.len() - j,
            {
                assert(start + j < n);
                if cs[start + j] != cb[j] {
                    assert(service@.subrange(start as int, service@.len() as int)[j as int] != backend@[j as int]);
                    assert(service@.subrange(start as int, service@.len() as int) != backend@);
                    return false;
                }
                j = j + 1;
            }
            assert(service@.subrange(start as int, service@.len() as int) =~= backend@);
            true
        },
    }
}

impl CpdbClient {
    /// The service names of the backends, in order.
    pub closed spec fn services(self) -> Seq<Seq<char>> {
        self.backends@.map_values(|b: BackendHandle| b.service_name@)
    }

    /// A client for the backends with the given service names, in order.
    pub fn from_service_names(names: Vec<String>) -> (r: CpdbClient)
        ensures
            r.services() == texts(names@),
    {
        let mut backends: Vec<BackendHandle> = Vec::new();
        let mut i: usize = 0;
        while i < names.len()
            invariant
                i <= names@.len(),
                backends@.len() == i,
                forall|j: int| 0 <= j < i ==> backends@[j].service_name@ == names@[j]@,
            decreases names@.len() - i,
        {
            backends.push(BackendHandle { service_name: names[i].clone() });
            i = i + 1;
        }
        let r = CpdbClient { backends };
        assert(r.services() =~= texts(names@));
        r
    }

    /// Returns the number of connected backends.
    pub fn backend_count(&self) -> (r: usize)
        ensures
            r == self.services().len(),
    {
        self.backends.len()
    }

    /// The service name of backend `i`.
    pub fn service_name(&self, i: usize) -> (r: &str)
        requires
            i < self.services().len(),
        ensures
            r@ == self.services()[i as int],
    {
        self.backends[i].service_name.as_str()
    }

    /// Finds the backend that `backend` names: the first whose full
    /// service name is `backend`, or whose name after the last dot is.
    pub fn proxy_for(&self, backend: &str) -> (r: Result<usize, CpdbError>)
        ensures
            match first_match(self.services(), backend@) {
                Some(i) => r == Ok::<usize, CpdbError>(i as usize),
                None => r matches Err(CpdbError::BackendError(m)) && m@ == no_backend_message(backend@),
            },
    {
        let mut i: usize = 0;
        while i < self.backends.len()
            invariant
                i <= self.backends@.len(),
                forall|j: int| 0 <= j < i ==> !backend_matches(#[trigger] self.services()[j], backend@),
            decreases self.backends@.len() - i,
        {
            if service_matches(self.backends[i].service_name.as_str(), backend) {
                proof {
                    let w = choose|w: int| 0 <= w < self.services().len() && backend_matches(self.services()[w], backend@)
                        && forall|j: int| 0 <= j < w ==> !backend_matches(self.services()[j], backend@);
                    assert(self.services()[i as int] == self.backends@[i as int].service_name@);
                    if w < i {
                        assert(!backend_matches(self.services()[w], backend@));
                    }
                    if w > i {
                        assert(!backend_matches(self.services()[i as int], backend@));
                    }
                }
                return Ok(i);
            }
            proof {
                assert(self.services()[i as int] == self.backends@[i as int].service_name@);
            }
            i = i + 1;
        }
        Err(CpdbError::BackendError(concat3("No backend found matching '", backend, "'")))
    }

    /// Keeps the names that start with the backend prefix and whose
    /// validity flag is set, in order.
    pub fn select_backend_names(names: &Vec<String>, valid: &Vec<bool>) -> (r: Vec<String>)
        requires
            valid@.len() == names@.len(),
        ensures
            texts(r@) == selected_names(texts(names@), valid@),
    {
        let mut out: Vec<String> = Vec::new();
        let mut i: usize = 0;
        while i < names.len()
            invariant
                valid@.len() == names@.len(),
                i <= names@.len(),
                texts(out@) == selected_names(texts(names@.subrange(0, i as int)), valid@.subrange(0, i as int)),
            decreases names@.len() - i,
        {
            let ghost before = out@;
            let keep = starts_with(names[i].as_str(), "org.openprinting.Backend.") && valid[i];
            if keep {
                out.push(names[i].clone());
            }
            proof {
                let ni = texts(names@.subrange(0, i + 1));
                assert(ni.drop_last() =~= texts(names@.subrange(0, i as int)));
                assert(valid@.subrange(0, i + 1).subrange(0, i as int) =~= valid@.subrange(0, i as int));
                assert(ni.last() == names@[i as int]@);
                if keep {
                    assert(texts(out@) =~= texts(before).push(names@[i as int]@));
                } else {
                    assert(texts(out@) =~= texts(before));
                }
            }
            i = i + 1;
        }
        assert(names@.subrange(0, names@.len() as int) =~= names@);
        assert(valid@.subrange(0, valid@.len() as int) =~= valid@);
        out
    }

    /// The backend service names among the activatable D-Bus names: those
    /// that start with `org.openprinting.Backend.` and are valid bus names.
    pub fn backend_names(activatable: &Vec<String>) -> (r: Vec<String>)
        ensures
            texts(r@) == selected_names(texts(activatable@), Seq::new(activatable@.len(), |i: int| valid_bus_name(activatable@[i]@))),
    {
        let mut valid: Vec<bool> = Vec::new();
        let mut i: usize = 0;
        while i < activatable.len()
            invariant
                i <= activatable@.len(),
                valid@.len() == i,
                forall|j: int| 0 <= j < i ==> valid@[j] == valid_bus_name(activatable@[j]@),
            decreases activatable@.len() - i,
        {
            valid.push(check_bus_name(activatable[i].as_str()));
            i = i + 1;
        }
        assert(valid@ =~= Seq::new(activatable@.len(), |i: int| valid_bus_name(activatable@[i]@)));
        Self::select_backend_names(activatable, &valid)
    }

    /// Gathers the printers of every backend that replied, skipping the
    /// backends whose call failed (`None`), in order.
    pub fn collect_printers(replies: &Vec<Option<Vec<RawPrinter>>>) -> (r: Vec<PrinterSnapshot>)
        ensures
            r@.len() == replied_printers(replies@).len(),
            forall|i: int| 0 <= i < r@.len() ==> snapshot_from_raw(#[trigger] r@[i], replied_printers(replies@)[i]),
    {
        let mut out: Vec<PrinterSnapshot> = Vec::new();
        let mut i: usize = 0;
        while i < replies.len()
            invariant
                i <= replies@.len(),
                out@.len() == replied_printers(replies@.subrange(0, i as int)).len(),
                forall|t: int| 0 <= t < out@.len() ==> snapshot_from_raw(#[trigger] out@[t], replied_printers(replies@.subrange(0, i as int))[t]),
            decreases replies@.len() - i,
        {
            let ghost prev = replied_printers(replies@.subrange(0, i as int));
            proof {
                assert(replies@.subrange(0, i + 1).drop_last() =~= replies@.subrange(0, i as int));
            }
            match &replies[i] {
                None => {},
                Some(printers) => {
                    let mut j: usize = 0;
                    while j < printers.len()
                        invariant
                            j <= printers@.len(),
                            out@.len() == prev.len() + j,
                            forall|t: int| 0 <= t < out@.len() ==> snapshot_from_raw(#[trigger] out@[t], (prev + printers@)[t]),
                        decreases printers@.len() - j,
                    {
                        let p = &printers[j];
                        let raw: RawPrinter = (p.0.clone(), p.1.clone(), p.2.clone(), p.3.clone(), p.4.clone(), p.5, p.6.clone(), p.7.clone());
                        assert(raw == *p);
                        out.push(PrinterSnapshot::from_raw(raw));
                        j = j + 1;
                    }
                },
            }
            i = i + 1;
        }
        assert(replies@.subrange(0, replies@.len() as int) =~= replies@);
        out
    }

    /// Whether a call that failed with the D-Bus error `error_name` is
    /// tried once more: exactly when the method was not known yet.
    pub fn should_retry(error_name: &str) -> (r: bool)
        ensures
            r == (error_name@ == "org.freedesktop.DBus.Error.UnknownMethod"@),
    {
        str_eq(error_name, "org.freedesktop.DBus.Error.UnknownMethod")
    }

    /// Seconds between two keep-alive pings: half the backends' own
    /// inactivity timeout.
    pub fn keep_alive_interval_secs() -> (r: u64)
        ensures
            r == AUTO_EXIT_TIMEOUT_SECS / 2,
    {
        AUTO_EXIT_TIMEOUT_SECS / 2
    }
}

proof fn lemma_last_index_no_dot(pre: Seq<char>, short: Seq<char>)
    requires
        pre.len() > 0,
        pre.last() == '.',
        !short.contains('.'),
    ensures
        last_index_of(pre + short, '.') == pre.len() - 1,
    decreases short.len(),
{
    if short.len() == 0 {
        assert(pre + short =~= pre);
    } else {
        assert((pre + short).drop_last() =~= pre + short.drop_last());
        assert(short.last() == short[short.len() - 1]);
        assert(!short.drop_last().contains('.')) by {
            if short.drop_last().contains('.') {
                let k = choose|k: int| 0 <= k < short.drop_last().len() && short.drop_last()[k] == '.';
                assert(short[k] == '.');
            }
        }
        lemma_last_index_no_dot(pre, short.drop_last());
    }
}

/// A backend is selected by its short name, the part of its service name
/// after the backend prefix, when that part has no dot (e.g. `"CUPS"`).
pub proof fn law_short_name_selects_backend(short: Seq<char>)
    requires
        !short.contains('.'),
    ensures
        backend_matches(backend_prefix() + short, short),
{
    reveal_strlit("org.openprinting.Backend.");
    let pre = backend_prefix();
    assert(pre.len() == 25);
    assert(pre.last() == '.');
    lemma_last_index_no_dot(pre, short);
    assert((pre + short).subrange(pre.len() as int, (pre + short).len() as int) =~= short);
}

/// Every backend is found by its full service name: the lookup selects it
/// or an earlier backend that the same name also selects.
pub proof fn law_full_name_selects_backend(services: Seq<Seq<char>>, i: int)
    requires
        0 <= i < services.len(),
    ensures
        first_match(services, services[i]) matches Some(j) && 0 <= j <= i
            && backend_matches(services[j], services[i]),
{
    assert(backend_matches(services[i], services[i]));
    lemma_first_with(services, |s: Seq<char>| backend_matches(s, services[i]), i);
    let j = choose|j: int| 0 <= j < services.len() && backend_matches(services[j], services[i])
        && forall|t: int| 0 <= t < j ==> !backend_matches(services[t], services[i]);
    if j > i {
        assert(!backend_matches(services[i], services[i]));
    }
}

/// The printers gathered from the replies of several backends are the
/// records of the replies that arrived, in order, and each keeps every
/// field of its record at that field's position.
pub proof fn law_collected_printers_keep_their_records(replies: Seq<Option<Vec<RawPrinter>>>, printers: Seq<PrinterSnapshot>)
    requires
        printers.len() == replied_printers(replies).len(),
        forall|i: int| 0 <= i < printers.len() ==> snapshot_from_raw(#[trigger] printers[i], replied_printers(replies)[i]),
    ensures
        forall|i: int| 0 <= i < printers.len() ==> {
            let r = replied_printers(replies)[i];
            &&& (#[trigger] printers[i]).id == r.0
            &&& printers[i].name == r.1
            &&& printers[i].info == r.2
            &&& printers[i].location == r.3
            &&& printers[i].make_model == r.4
            &&& printers[i].accepting_jobs == r.5
            &&& printers[i].state@ == state_of_name(r.6@)
            &&& printers[i].backend == r.7
        },
{
    assert forall|i: int| 0 <= i < printers.len() implies {
        let r = replied_printers(replies)[i];
        &&& (#[trigger] printers[i]).id == r.0
        &&& printers[i].name == r.1
        &&& printers[i].info == r.2
        &&& printers[i].location == r.3
        &&& printers[i].make_model == r.4
        &&& printers[i].accepting_jobs == r.5
        &&& printers[i].state@ == state_of_name(r.6@)
        &&& printers[i].backend == r.7
    } by {
        law_snapshot_fields_follow_the_record(printers[i], replied_printers(replies)[i]);
    }
}

} // verus!
