//! Printer handles and the owned records read from cpdb-libs printers.

use vstd::prelude::*;
use crate::error::CpdbError;
use crate::maps::StrMap;
use crate::text::{concat2, concat3, contains_str, has_infix};

verus! {

/// Page margins in hundredths of a millimetre.
#[derive(Debug, Clone, Copy, PartialEq, Eq)]
pub struct Margin {
    /// Top margin.
    pub top: i32,
    /// Bottom margin.
    pub bottom: i32,
    /// Left margin.
    pub left: i32,
    /// Right margin.
    pub right: i32,
}

/// One or more [`Margin`] entries returned by the backend for a media type.
#[derive(Debug, Clone, Default, PartialEq, Eq)]
pub struct Margins {
    /// Every margin set the backend reports for the queried media.
    pub entries: Vec<Margin>,
}

/// Media dimensions in hundredths of a millimetre.
#[derive(Debug, Clone, Copy, PartialEq, Eq)]
pub struct MediaSize {
    /// Width.
    pub width: i32,
    /// Length.
    pub length: i32,
}

/// The socket path and job ID handed back for a job streamed over a
/// Unix-domain socket.
#[derive(Debug, Clone, PartialEq, Eq)]
pub struct PrintSocketHandle {
    /// Path to a Unix-domain socket the caller writes the job data to.
    pub socket_path: String,
    /// The backend-assigned job ID, or an empty string when not provided.
    pub job_id: String,
}

/// An owned snapshot of a printer's translation table.
#[derive(Debug, Default)]
pub struct TranslationMap {
    /// The locale this map was captured for, when available.
    pub locale: Option<String>,
    /// Translation entries: source string to localised string.
    pub entries: StrMap<String>,
}

impl PrintSocketHandle {
    /// The handle for a socket-streamed job, from the socket path and job
    /// ID that cpdb-libs handed back (`None` where it gave a null string).
    /// Without a socket path the job failed; a missing job ID is empty.
    pub fn from_reply(socket_path: Option<String>, job_id: Option<String>) -> (r: Result<PrintSocketHandle, CpdbError>)
        ensures
            match socket_path {
                None => r matches Err(CpdbError::JobFailed(m)) && m@ == "cpdbPrintSocket returned a null socket path"@,
                Some(path) => r matches Ok(h) && h.socket_path == path
                    && h.job_id@ == (match job_id { Some(j) => j@, None => Seq::<char>::empty() }),
            },
    {
        match socket_path {
            None => Err(CpdbError::JobFailed(String::from_str("cpdbPrintSocket returned a null socket path"))),
            Some(path) => {
                let id = match job_id {
                    Some(j) => j,
                    None => String::new(),
                };
                Ok(PrintSocketHandle { socket_path: path, job_id: id })
            },
        }
    }
}

impl MediaSize {
    /// The size of media `media_name` from the status and dimensions that
    /// cpdb-libs reported: status 0 means found.
    pub fn from_reply(media_name: &str, status: i32, width: i32, length: i32) -> (r: Result<MediaSize, CpdbError>)
        ensures
            status == 0 ==> r == Ok::<MediaSize, CpdbError>(MediaSize { width, length }),
            status != 0 ==> (r matches Err(CpdbError::NotFound(m)) && m@ == "media size '"@ + media_name@ + "'"@),
    {
        if status == 0 {
            Ok(MediaSize { width, length })
        } else {
            Err(CpdbError::NotFound(concat3("media size '", media_name, "'")))
        }
    }
}

impl Margins {
    /// The margin sets of media `media_name` from the count and entries
    /// that cpdb-libs reported (`None` for a null array): none reported is
    /// not found, else the first `count` entries.
    pub fn from_reply(media_name: &str, count: i32, entries: Option<Vec<Margin>>) -> (r: Result<Margins, CpdbError>)
        requires
            count > 0 ==> (entries matches Some(v) ==> v@.len() >= count),
        ensures
            (count <= 0 || entries is None) ==> (r matches Err(CpdbError::NotFound(m))
                && m@ == "media margins '"@ + media_name@ + "'"@),
            count > 0 ==> (entries matches Some(v) ==> (r matches Ok(ms) && ms.entries@ == v@.subrange(0, count as int))),
    {
        if count <= 0 {
            return Err(CpdbError::NotFound(concat3("media margins '", media_name, "'")));
        }
        match entries {
            None => Err(CpdbError::NotFound(concat3("media margins '", media_name, "'"))),
            Some(v) => {
                let mut out: Vec<Margin> = Vec::new();
                let mut i: usize = 0;
                let n = count as usize;
                while i < n
                    invariant
                        n == count,
                        n <= v@.len(),
                        i <= n,
                        out@ == v@.subrange(0, i as int),
                    decreases n - i,
                {
                    out.push(v[i]);
                    i = i + 1;
                    assert(out@ =~= v@.subrange(0, i as int));
                }
                Ok(Margins { entries: out })
            },
        }
    }
}

/// The translations of a table's pairs, in order, where a pair with a
/// null side is skipped and a later pair wins over an earlier one.
pub open spec fn table_translations(pairs: Seq<(Option<String>, Option<String>)>) -> Map<Seq<char>, String>
    decreases pairs.len(),
{
    if pairs.len() == 0 {
        Map::empty()
    } else {
        let rest = table_translations(pairs.drop_last());
        match pairs.last() {
            (Some(k), Some(v)) => rest.insert(k@, v),
            _ => rest,
        }
    }
}

impl TranslationMap {
    /// The snapshot of a printer's translation table, from its locale and
    /// the key/value pairs of the table (`None` for a null string).
    pub fn from_table(locale: Option<String>, pairs: Vec<(Option<String>, Option<String>)>) -> (r: TranslationMap)
        ensures
            r.locale == locale,
            r.entries@ == table_translations(pairs@),
    {
        let mut entries: StrMap<String> = StrMap::new();
        let mut i: usize = 0;
        while i < pairs.len()
            invariant
                i <= pairs@.len(),
                entries@ == table_translations(pairs@.subrange(0, i as int)),
            decreases pairs@.len() - i,
        {
            proof {
                assert(pairs@.subrange(0, i + 1).drop_last() =~= pairs@.subrange(0, i as int));
            }
            let pair = &pairs[i];
            match pair {
                (Some(k), Some(v)) => {
                    entries.insert(k.clone(), v.clone());
                },
                _ => {},
            }
            i = i + 1;
        }
        assert(pairs@.subrange(0, pairs@.len() as int) =~= pairs@);
        TranslationMap { locale, entries }
    }

    /// `true` when no entries are present.
    pub fn is_empty(&self) -> (r: bool)
        ensures
            r == (self.entries@ == Map::<Seq<char>, String>::empty()),
    {
        self.entries.is_empty()
    }

    /// Number of entries in the map.
    pub fn len(&self) -> (r: usize)
        ensures
            r == self.entries@.len(),
    {
        self.entries.len()
    }

    /// Looks up the translation for `key`.
    pub fn get(&self, key: &str) -> (r: Option<&str>)
        ensures
            match r {
                Some(t) => self.entries@.contains_key(key@) && t@ == self.entries@[key@]@,
                None => !self.entries@.contains_key(key@),
            },
    {
        match self.entries.get(key) {
            Some(t) => Some(t.as_str()),
            None => None,
        }
    }
}

/// The lower-case form of a string, as `str::to_lowercase` gives it.
pub uninterp spec fn lowercase(s: Seq<char>) -> Seq<char>;

/// Converts with `str::to_lowercase`.
///
/// Trusted: the contract claims only that the result is a function of the
/// characters of `s` (named `lowercase`); the Unicode case mapping itself
/// is not restated.
#[verifier::external_body]
fn to_lowercase(s: &str) -> (r: String)
    ensures
        r@ == lowercase(s@),
{
    s.to_lowercase()
}

/// A handle on a cpdb-libs printer object: the object's address, and
/// whether the handle frees the object when dropped (owned) or borrows it
/// from a frontend's table.
#[derive(Debug)]
pub struct Printer {
    raw: usize,
    owned: bool,
}

impl Printer {
    /// The address of the printer object.
    pub closed spec fn address(self) -> usize {
        self.raw
    }

    /// Whether this handle owns the printer object.
    pub closed spec fn owns(self) -> bool {
        self.owned
    }

    /// Wraps an object owned by a frontend's table; a null address is
    /// refused.
    pub fn from_raw_borrowed(raw: usize) -> (r: Result<Printer, CpdbError>)
        ensures
            raw == 0 ==> r matches Err(CpdbError::NullPointer),
            raw != 0 ==> (r matches Ok(p) && p.address() == raw && !p.owns()),
    {
        if raw == 0 {
            Err(CpdbError::NullPointer)
        } else {
            Ok(Printer { raw, owned: false })
        }
    }

    /// Wraps an object the handle owns; a null address is refused.
    pub fn from_raw_owned(raw: usize) -> (r: Result<Printer, CpdbError>)
        ensures
            raw == 0 ==> r matches Err(CpdbError::NullPointer),
            raw != 0 ==> (r matches Ok(p) && p.address() == raw && p.owns()),
    {
        if raw == 0 {
            Err(CpdbError::NullPointer)
        } else {
            Ok(Printer { raw, owned: true })
        }
    }

    /// The address of the printer object.
    pub fn as_raw(&self) -> (r: usize)
        ensures
            r == self.address(),
            r != 0,
    {
        proof {
            use_type_invariant(self);
        }
        self.raw
    }

    /// Whether the handle frees the object when dropped.
    pub fn is_owned(&self) -> (r: bool)
        ensures
            r == self.owns(),
    {
        self.owned
    }

    #[verifier::type_invariant]
    closed spec fn not_null(self) -> bool {
        self.raw != 0
    }

    /// A string field read from the printer object: a null field reads as
    /// the empty string; any other failure is passed on.
    pub fn field_text(read: Result<String, CpdbError>) -> (r: Result<String, CpdbError>)
        ensures
            match read {
                Ok(s) => r == Ok::<String, CpdbError>(s),
                Err(CpdbError::NullPointer) => r matches Ok(s) && s@ == Seq::<char>::empty(),
                Err(e) => r == Err::<String, CpdbError>(e),
            },
    {
        match read {
            Ok(s) => Ok(s),
            Err(CpdbError::NullPointer) => Ok(String::new()),
            Err(e) => Err(e),
        }
    }

    /// The default value of an option, from the address of the option
    /// record that cpdb-libs found (null when there is no such option) and
    /// the reading of its default value (`None` for a null value): no
    /// option or no value gives `None`; a failed reading is passed on.
    pub fn option_default_from(record: usize, default_value: Option<Result<String, CpdbError>>)
        -> (r: Result<Option<String>, CpdbError>)
        ensures
            record == 0 ==> r == Ok::<Option<String>, CpdbError>(None),
            record != 0 ==> r == match default_value {
                None => Ok::<Option<String>, CpdbError>(None),
                Some(Ok(s)) => Ok(Some(s)),
                Some(Err(e)) => Err(e),
            },
    {
        if record == 0 {
            return Ok(None);
        }
        match default_value {
            None => Ok(None),
            Some(Ok(s)) => Ok(Some(s)),
            Some(Err(e)) => Err(e),
        }
    }

    /// The printer loaded from the file at `path`, from the address that
    /// cpdb-libs returned for it: null means nothing was loaded; else the
    /// handle owns the printer.
    pub fn loaded_from(raw: usize, path: &str) -> (r: Result<Printer, CpdbError>)
        ensures
            raw == 0 ==> (r matches Err(CpdbError::NotFound(m)) && m@ == "pickled printer at "@ + path@),
            raw != 0 ==> (r matches Ok(p) && p.address() == raw && p.owns()),
    {
        if raw == 0 {
            Err(CpdbError::NotFound(concat2("pickled printer at ", path)))
        } else {
            Printer::from_raw_owned(raw)
        }
    }

    /// The job ID that the cpdb-libs submission function `function`
    /// returned: none means the job failed.
    pub fn job_id_from_reply(job_id: Option<String>, function: &str) -> (r: Result<String, CpdbError>)
        ensures
            match job_id {
                Some(id) => r == Ok::<String, CpdbError>(id),
                None => r matches Err(CpdbError::JobFailed(m)) && m@ == function@ + " returned null"@,
            },
    {
        match job_id {
            Some(id) => Ok(id),
            None => Err(CpdbError::JobFailed(concat2(function, " returned null"))),
        }
    }

    /// The outcome of streaming a job over a descriptor, from the
    /// descriptor, job ID and socket path that cpdb-libs handed back: a
    /// negative descriptor means the job failed; a missing job ID reads as
    /// empty.
    pub fn print_fd_outcome(fd: i32, job_id: Option<String>, socket_path: Option<String>)
        -> (r: Result<(i32, String, Option<String>), CpdbError>)
        ensures
            fd < 0 ==> (r matches Err(CpdbError::JobFailed(m)) && m@ == "cpdbPrintFD returned an invalid fd"@),
            fd >= 0 ==> (r matches Ok(out) && out.0 == fd && out.2 == socket_path
                && out.1@ == (match job_id { Some(j) => j@, None => Seq::<char>::empty() })),
    {
        if fd < 0 {
            return Err(CpdbError::JobFailed(String::from_str("cpdbPrintFD returned an invalid fd")));
        }
        let id = match job_id {
            Some(j) => j,
            None => String::new(),
        };
        Ok((fd, id, socket_path))
    }

    /// Whether the printer takes PDF documents, judged from its make and
    /// model as read from the printer (an empty model when the read
    /// failed): the lower-case model mentions `pdf`.
    pub fn accepts_pdf(&self, make_and_model: Result<String, CpdbError>) -> (r: Result<bool, CpdbError>)
        ensures
            r == Ok::<bool, CpdbError>(has_infix(lowercase(
                match make_and_model { Ok(m) => m@, Err(_) => Seq::<char>::empty() }), "pdf"@)),
    {
        let model = match make_and_model {
            Ok(m) => m,
            Err(_) => String::new(),
        };
        let lower = to_lowercase(model.as_str());
        Ok(contains_str(lower.as_str(), "pdf"))
    }
}

} // verus!
