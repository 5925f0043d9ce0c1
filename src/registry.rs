//! The template registry: maps template ids and aliases to providers.
use vstd::prelude::*;
use crate::templates::{
    TemplateKind,
    catalog,
    catalog_kinds,
    canonical_id_of,
    short_id_of,
    display_name_of,
    description_of,
};

verus! {

/// The code of `c` with ASCII upper-case letters taken to lower case.
pub open spec fn fold_code(c: char) -> u32 {
    if 65 <= c as u32 <= 90 {
        (c as u32 + 32) as u32
    } else {
        c as u32
    }
}

/// Two ids are the same up to ASCII case.
pub open spec fn ids_match(a: Seq<char>, b: Seq<char>) -> bool {
    &&& a.len() == b.len()
    &&& forall|i: int| 0 <= i < a.len() ==> #[trigger] fold_code(a[i]) == fold_code(b[i])
}

fn fold_char(c: char) -> (r: u32)
    ensures
        r == fold_code(c),
{
    let code = c as u32;
    if 65 <= code && code <= 90 {
        code + 32
    } else {
        code
    }
}

/// Compares two ids up to ASCII case.
pub fn same_id(a: &str, b: &str) -> (r: bool)
    ensures
        r == ids_match(a@, b@),
{
    let n = a.unicode_len();
    if n != b.unicode_len() {
        return false;
    }
    let mut i: usize = 0;
    while i < n
        invariant
            n == a@.len(),
            n == b@.len(),
            i <= n,
            forall|j: int| 0 <= j < i ==> #[trigger] fold_code(a@[j]) == fold_code(b@[j]),
        decreases n - i,
    {
        if fold_char(a.get_char(i)) != fold_char(b.get_char(i)) {
            return false;
        }
        i = i + 1;
    }
    true
}

/// One registered template: its provider, its canonical id, its aliases, and
/// what a listing shows of it.
#[derive(Debug)]
pub struct TemplateEntry {
    pub kind: TemplateKind,
    pub id: String,
    pub aliases: Vec<String>,
    pub display_name: String,
    pub description: String,
}

/// `id` names the entry `e`, by its canonical id or one of its aliases.
pub open spec fn entry_matches(e: TemplateEntry, id: Seq<char>) -> bool {
    ids_match(e.id@, id) || exists|k: int|
        0 <= k < e.aliases@.len() && ids_match(#[trigger] e.aliases@[k]@, id)
}

/// Entry `i` is the first entry of `entries` that `id` names.
pub open spec fn first_match_at(entries: Seq<TemplateEntry>, id: Seq<char>, i: int) -> bool {
    &&& 0 <= i < entries.len()
    &&& entry_matches(entries[i], id)
    &&& forall|j: int| 0 <= j < i ==> !entry_matches(#[trigger] entries[j], id)
}

pub open spec fn is_registered(entries: Seq<TemplateEntry>, id: Seq<char>) -> bool {
    exists|i: int| 0 <= i < entries.len() && entry_matches(#[trigger] entries[i], id)
}

/// The entry that the standard catalog registers for `kind`.
pub open spec fn is_standard_entry(e: TemplateEntry, kind: TemplateKind) -> bool {
    &&& e.kind == kind
    &&& e.id@ == canonical_id_of(kind)
    &&& e.aliases@.len() == 1
    &&& e.aliases@[0]@ == short_id_of(kind)
    &&& e.display_name@ == display_name_of(kind)
    &&& e.description@ == description_of(kind)
}

/// A template id that no entry of the registry names.
#[derive(Debug)]
pub struct UnknownTemplateError {
    /// The id that was asked for.
    pub requested: String,
    /// The display names of all registered templates, in registration order.
    pub known: Vec<String>,
}

/// The table of known templates, in registration order.
pub struct Registry {
    entries: Vec<TemplateEntry>,
}

impl View for Registry {
    type V = Seq<TemplateEntry>;

    closed spec fn view(&self) -> Seq<TemplateEntry> {
        self.entries@
    }
}

pub open spec fn display_names(entries: Seq<TemplateEntry>) -> Seq<Seq<char>> {
    entries.map_values(|e: TemplateEntry| e.display_name@)
}

impl Registry {
    /// A registry with no template.
    pub fn new() -> (r: Registry)
        ensures
            r@ == Seq::<TemplateEntry>::empty(),
    {
        Registry { entries: Vec::new() }
    }

    /// Adds a template under its canonical id and its aliases, after those
    /// registered before.
    pub fn register(
        &mut self,
        kind: TemplateKind,
        id: &str,
        aliases: Vec<String>,
        display_name: &str,
        description: &str,
    )
        ensures
            final(self)@.len() == old(self)@.len() + 1,
            final(self)@.subrange(0, old(self)@.len() as int) == old(self)@,
            final(self)@.last().kind == kind,
            final(self)@.last().id@ == id@,
            final(self)@.last().aliases == aliases,
            final(self)@.last().display_name@ == display_name@,
            final(self)@.last().description@ == description@,
    {
        let entry = TemplateEntry {
            kind,
            id: id.to_owned(),
            aliases,
            display_name: display_name.to_owned(),
            description: description.to_owned(),
        };
        self.entries.push(entry);
        assert(self.entries@.subrange(0, old(self)@.len() as int) =~= old(self)@);
    }

    /// The registry of the built-in catalog: each template under its canonical
    /// id with its short name as alias, in catalog order.
    pub fn standard() -> (r: Registry)
        ensures
            r@.len() == catalog().len(),
            forall|i: int| 0 <= i < r@.len() ==> is_standard_entry(#[trigger] r@[i], catalog()[i]),
    {
        let kinds = catalog_kinds();
        let mut reg = Registry::new();
        let mut i: usize = 0;
        while i < kinds.len()
            invariant
                kinds@ == catalog(),
                i <= kinds.len(),
                reg@.len() == i,
                forall|j: int| 0 <= j < i ==> is_standard_entry(#[trigger] reg@[j], catalog()[j]),
            decreases kinds.len() - i,
        {
            let kind = kinds[i];
            let mut aliases: Vec<String> = Vec::new();
            aliases.push(kind.short_id().to_owned());
            let ghost before = reg@;
            reg.register(kind, kind.canonical_id(), aliases, kind.display_name(), kind.description());
            proof {
                assert forall|j: int| 0 <= j < i + 1 implies is_standard_entry(#[trigger] reg@[j], catalog()[j]) by {
                    if j < i {
                        assert(reg@[j] == reg@.subrange(0, i as int)[j]);
                    }
                }
            }
            i = i + 1;
        }
        reg
    }

    /// The number of registered templates.
    pub fn len(&self) -> (r: usize)
        ensures
            r == self@.len(),
    {
        self.entries.len()
    }

    /// Looks `id` up, ignoring ASCII case, among canonical ids and aliases; the
    /// first registered entry that it names wins. An id that names no entry is
    /// reported with the display names of every registered template.
    pub fn resolve(&self, id: &str) -> (r: Result<TemplateKind, UnknownTemplateError>)
        ensures
            r is Ok <==> is_registered(self@, id@),
            r matches Ok(kind) ==> exists|i: int|
                first_match_at(self@, id@, i) && #[trigger] self@[i].kind == kind,
            r matches Err(e) ==> e.requested@ == id@ && e.known@.map_values(|s: String| s@)
                == display_names(self@),
    {
        let mut i: usize = 0;
        while i < self.entries.len()
            invariant
                i <= self.entries@.len(),
                forall|j: int| 0 <= j < i ==> !entry_matches(#[trigger] self.entries@[j], id@),
            decreases self.entries@.len() - i,
        {
            if self.matches_entry(i, id) {
                assert(first_match_at(self@, id@, i as int));
                return Ok(self.entries[i].kind);
            }
            i = i + 1;
        }
        let known = self.display_names();
        Err(UnknownTemplateError { requested: id.to_owned(), known })
    }

    fn matches_entry(&self, i: usize, id: &str) -> (r: bool)
        requires
            i < self@.len(),
        ensures
            r == entry_matches(self@[i as int], id@),
    {
        let e = &self.entries[i];
        if same_id(e.id.as_str(), id) {
            return true;
        }
        let mut k: usize = 0;
        while k < e.aliases.len()
            invariant
                e == self.entries@[i as int],
                k <= e.aliases@.len(),
                !ids_match(e.id@, id@),
                forall|m: int| 0 <= m < k ==> !ids_match(#[trigger] e.aliases@[m]@, id@),
            decreases e.aliases@.len() - k,
        {
            if same_id(e.aliases[k].as_str(), id) {
                return true;
            }
            k = k + 1;
        }
        false
    }

    /// The display names of all registered templates, in registration order.
    pub fn display_names(&self) -> (r: Vec<String>)
        ensures
            r@.map_values(|s: String| s@) == display_names(self@),
    {
        let mut names: Vec<String> = Vec::new();
        let mut i: usize = 0;
        while i < self.entries.len()
            invariant
                i <= self.entries@.len(),
                names@.len() == i,
                forall|j: int| 0 <= j < i ==> #[trigger] names@[j]@ == self.entries@[j].display_name@,
            decreases self.entries@.len() - i,
        {
            names.push(self.entries[i].display_name.clone());
            i = i + 1;
        }
        assert(names@.map_values(|s: String| s@) =~= display_names(self@));
        names
    }

    /// The (display name, description) of each registered template, in
    /// registration order.
    pub fn list(&self) -> (r: Vec<(String, String)>)
        ensures
            r@.len() == self@.len(),
            forall|i: int| 0 <= i < r@.len() ==> (#[trigger] r@[i]).0@ == self@[i].display_name@
                && r@[i].1@ == self@[i].description@,
    {
        let mut out: Vec<(String, String)> = Vec::new();
        let mut i: usize = 0;
        while i < self.entries.len()
            invariant
                i <= self.entries@.len(),
                out@.len() == i,
                forall|j: int| 0 <= j < i ==> (#[trigger] out@[j]).0@ == self.entries@[j].display_name@
                    && out@[j].1@ == self.entries@[j].description@,
            decreases self.entries@.len() - i,
        {
            let e = &self.entries[i];
            out.push((e.display_name.clone(), e.description.clone()));
            i = i + 1;
        }
        out
    }
}

} // verus!
