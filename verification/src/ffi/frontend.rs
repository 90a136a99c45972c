//! Frontend handles.

use vstd::prelude::*;
use crate::error::CpdbError;
use crate::ffi::printer::Printer;
use crate::text::{concat3, str_eq};

verus! {

/// A handle on a cpdb-libs frontend object, by the object's address.
#[derive(Debug)]
pub struct Frontend {
    raw: usize,
}

impl Frontend {
    /// The address of the frontend object.
    pub closed spec fn address(self) -> usize {
        self.raw
    }

    #[verifier::type_invariant]
    closed spec fn not_null(self) -> bool {
        self.raw != 0
    }

    /// Wraps an already-allocated frontend object; a null address is
    /// refused.
    pub fn from_raw(raw: usize) -> (r: Result<Frontend, CpdbError>)
        ensures
            raw == 0 ==> r matches Err(CpdbError::NullPointer),
            raw != 0 ==> (r matches Ok(f) && f.address() == raw),
    {
        if raw == 0 {
            Err(CpdbError::NullPointer)
        } else {
            Ok(Frontend { raw })
        }
    }

    /// The address of the frontend object.
    pub fn as_raw(&self) -> (r: usize)
        ensures
            r == self.address(),
            r != 0,
    {
        proof {
            use_type_invariant(self);
        }
        self.raw
    }
}

/// Printer `i` of `names` has a name, and it is `name`.
pub open spec fn is_named(names: Seq<Option<String>>, i: int, name: Seq<char>) -> bool {
    names[i] matches Some(n) && n@ == name
}

/// The position of the first printer whose name is `name` (a printer
/// without a name never matches), or `None`.
pub open spec fn first_printer_named(names: Seq<Option<String>>, name: Seq<char>) -> Option<int> {
    if exists|i: int| 0 <= i < names.len() && #[trigger] is_named(names, i, name) {
        Some(choose|i: int| 0 <= i < names.len() && #[trigger] is_named(names, i, name)
            && forall|j: int| 0 <= j < i ==> !#[trigger] is_named(names, j, name))
    } else {
        None
    }
}

/// The non-null addresses among `values`, in order.
pub open spec fn non_null(values: Seq<usize>) -> Seq<usize> {
    values.filter(|a: usize| a != 0)
}

impl Frontend {
    /// The borrowed printers of the frontend's printer table, from the
    /// addresses stored in it: null entries are skipped.
    pub fn printers_from_table(values: &Vec<usize>) -> (r: Vec<Printer>)
        ensures
            r@.len() == non_null(values@).len(),
            forall|i: int| 0 <= i < r@.len() ==> (#[trigger] r@[i]).address() == non_null(values@)[i] && !r@[i].owns(),
    {
        let mut out: Vec<Printer> = Vec::new();
        let mut i: usize = 0;
        while i < values.len()
            invariant
                i <= values@.len(),
                out@.len() == non_null(values@.subrange(0, i as int)).len(),
                forall|t: int| 0 <= t < out@.len() ==> (#[trigger] out@[t]).address()
                    == non_null(values@.subrange(0, i as int))[t] && !out@[t].owns(),
            decreases values@.len() - i,
        {
            proof {
                assert(values@.subrange(0, i + 1).drop_last() =~= values@.subrange(0, i as int));
                reveal_with_fuel(Seq::filter, 2);
            }
            let a = values[i];
            if a != 0 {
                match Printer::from_raw_borrowed(a) {
                    Ok(p) => out.push(p),
                    Err(_) => {},
                }
            }
            i = i + 1;
        }
        assert(values@.subrange(0, values@.len() as int) =~= values@);
        out
    }

    /// The position, among the names of the printers of the frontend's
    /// table (`None` for a printer without a name), of the first printer
    /// named `name`; not found when there is none.
    pub fn printer_named(names: &Vec<Option<String>>, name: &str) -> (r: Result<usize, CpdbError>)
        ensures
            match first_printer_named(names@, name@) {
                Some(i) => r == Ok::<usize, CpdbError>(i as usize),
                None => r matches Err(CpdbError::NotFound(m)) && m@ == "printer '"@ + name@ + "'"@,
            },
    {
        let mut i: usize = 0;
        while i < names.len()
            invariant
                i <= names@.len(),
                forall|j: int| 0 <= j < i ==> !#[trigger] is_named(names@, j, name@),
            decreases names@.len() - i,
        {
            match &names[i] {
                Some(n) => {
                    if str_eq(n.as_str(), name) {
                        proof {
                            assert(is_named(names@, i as int, name@));
                            let w = choose|w: int| 0 <= w < names@.len() && #[trigger] is_named(names@, w, name@)
                                && forall|j: int| 0 <= j < w ==> !#[trigger] is_named(names@, j, name@);
                            assert(w == i);
                        }
                        return Ok(i);
                    }
                },
                None => {},
            }
            i = i + 1;
        }
        Err(CpdbError::NotFound(concat3("printer '", name, "'")))
    }

    /// The address to hand to cpdb-libs when adding `printer` to the
    /// frontend's table: only an owned printer may be added, and adding it
    /// gives up the handle.
    pub fn add_printer_target(printer: Printer) -> (r: Result<usize, CpdbError>)
        ensures
            printer.owns() ==> r == Ok::<usize, CpdbError>(printer.address()),
            !printer.owns() ==> (r matches Err(CpdbError::PrinterError(m))
                && m@ == "add_printer requires an owned Printer"@),
    {
        if !printer.is_owned() {
            return Err(CpdbError::PrinterError(String::from_str("add_printer requires an owned Printer")));
        }
        Ok(printer.as_raw())
    }

    /// The answer to adding a printer to the frontend's table, from the
    /// `gboolean` that `cpdbAddPrinter` returned: `Ok(true)` when the
    /// printer was inserted (any nonzero value), `Ok(false)` when it was
    /// rejected.
    pub fn added_from_reply(added: i32) -> (r: Result<bool, CpdbError>)
        ensures
            r == Ok::<bool, CpdbError>(added != 0),
    {
        Ok(added != 0)
    }

    /// The printer removed from the frontend's table, from the address
    /// cpdb-libs handed back: none when null, else owned by the caller.
    pub fn removed_printer_from(raw: usize) -> (r: Option<Printer>)
        ensures
            raw == 0 ==> r is None,
            raw != 0 ==> (r matches Some(p) && p.address() == raw && p.owns()),
    {
        match Printer::from_raw_owned(raw) {
            Ok(p) => Some(p),
            Err(_) => None,
        }
    }

    /// The printer found by id and backend, from the address cpdb-libs
    /// returned for the lookup; null means not found.
    pub fn found_printer(raw: usize, printer_id: &str, backend_name: &str) -> (r: Result<Printer, CpdbError>)
        ensures
            raw == 0 ==> (r matches Err(CpdbError::NotFound(m))
                && m@ == "printer '"@ + printer_id@ + "' on backend '"@ + backend_name@ + "'"@),
            raw != 0 ==> (r matches Ok(p) && p.address() == raw && !p.owns()),
    {
        if raw == 0 {
            let mut m = concat3("printer '", printer_id, "' on backend '");
            m.append(backend_name);
            m.append("'");
            Err(CpdbError::NotFound(m))
        } else {
            Printer::from_raw_borrowed(raw)
        }
    }

    /// The user-default printer, from the address cpdb-libs returned for
    /// it; null means none is set.
    pub fn default_printer_from(raw: usize) -> (r: Result<Printer, CpdbError>)
        ensures
            raw == 0 ==> (r matches Err(CpdbError::NotFound(m)) && m@ == "default printer"@),
            raw != 0 ==> (r matches Ok(p) && p.address() == raw && !p.owns()),
    {
        if raw == 0 {
            Err(CpdbError::NotFound(String::from_str("default printer")))
        } else {
            Printer::from_raw_borrowed(raw)
        }
    }

    /// The default printer of a backend, from the address cpdb-libs
    /// returned for it; null means none is set.
    pub fn default_printer_for_backend_from(raw: usize, backend_name: &str) -> (r: Result<Printer, CpdbError>)
        ensures
            raw == 0 ==> (r matches Err(CpdbError::NotFound(m))
                && m@ == "default printer for backend '"@ + backend_name@ + "'"@),
            raw != 0 ==> (r matches Ok(p) && p.address() == raw && !p.owns()),
    {
        if raw == 0 {
            Err(CpdbError::NotFound(concat3("default printer for backend '", backend_name, "'")))
        } else {
            Printer::from_raw_borrowed(raw)
        }
    }
}

} // verus!
