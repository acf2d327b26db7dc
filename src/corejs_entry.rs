//! Replacement of core-js entry imports by the polyfill modules they stand
//! for.

use vstd::prelude::*;

use ahash::RandomState;
use indexmap::IndexSet;

use crate::ast::ImportDecl;

verus! {

#[verifier::external_type_specification]
#[verifier::external_body]
pub struct ExRandomState(RandomState);

#[verifier::external_type_specification]
#[verifier::external_body]
#[verifier::reject_recursive_types(T)]
#[verifier::reject_recursive_types(S)]
pub struct ExIndexSet<T, S>(IndexSet<T, S>);

/// The modules that an import set holds, in insertion order.
pub uninterp spec fn import_items(s: IndexSet<String, RandomState>) -> Seq<Seq<char>>;

/// Relies on indexmap's `Default` for `IndexSet`: an empty set.
#[verifier::external_body]
fn empty_imports() -> (r: IndexSet<String, RandomState>)
    ensures
        import_items(r) == Seq::<Seq<char>>::empty(),
{
    IndexSet::default()
}

/// Relies on indexmap's `IndexSet::insert`: an item already present stays
/// where it is, a new one goes last; the result tells whether it was new.
#[verifier::external_body]
fn insert_import(s: &mut IndexSet<String, RandomState>, v: String) -> (r: bool)
    ensures
        r == !import_items(*old(s)).contains(v@),
        import_items(*final(s)) == (if r { import_items(*old(s)).push(v@) } else { import_items(*old(s)) }),
{
    s.insert(v)
}

/// A core-js version.
#[derive(Clone, Copy, Debug, PartialEq, Eq, Hash, Structural)]
pub struct Version {
    pub major: u32,
    pub minor: u32,
    pub patch: u32,
}

pub open spec fn version_le(a: Version, b: Version) -> bool {
    a.major < b.major || (a.major == b.major && (a.minor < b.minor || (a.minor == b.minor && a.patch <= b.patch)))
}

impl Version {
    pub fn le(&self, other: &Version) -> (r: bool)
        ensures
            r == version_le(*self, *other),
    {
        self.major < other.major || (self.major == other.major && (self.minor < other.minor || (self.minor
            == other.minor && self.patch <= other.patch)))
    }
}

/// A polyfill module that an entry import stands for, with what the data
/// tables say of it: whether the targets need it (`None` where the tables
/// know nothing of it), and the first core-js version that has it.
#[derive(Debug, PartialEq, Eq)]
pub struct Feature {
    pub name: String,
    pub enabled_for_target: Option<bool>,
    pub min_corejs: Option<Version>,
}

/// Replaces core-js entry imports with the polyfill modules they stand for.
#[derive(Debug)]
pub struct Entry {
    is_any_target: bool,
    corejs_version: Version,
    pub imports: IndexSet<String, RandomState>,
    remove_regenerator: bool,
}

pub open spec fn regenerator_runtime() -> Seq<char> {
    "regenerator-runtime/runtime.js"@
}

/// Whether an entry with these settings imports the feature `f`.
pub open spec fn wants(is_any_target: bool, corejs: Version, f: Feature) -> bool {
    &&& (is_any_target || f.enabled_for_target != Some(false))
    &&& (f.min_corejs is None || version_le(f.min_corejs->0, corejs))
}

/// `items` after each wanted feature of `fs` is inserted, in order.
pub open spec fn with_features(items: Seq<Seq<char>>, is_any_target: bool, corejs: Version, fs: Seq<Feature>) -> Seq<
    Seq<char>,
>
    decreases fs.len(),
{
    if fs.len() == 0 {
        items
    } else {
        let prev = with_features(items, is_any_target, corejs, fs.drop_last());
        let f = fs.last();
        if wants(is_any_target, corejs, f) && !prev.contains(f.name@) { prev.push(f.name@) } else { prev }
    }
}

impl Entry {
    pub closed spec fn any_target(&self) -> bool {
        self.is_any_target
    }

    pub closed spec fn corejs(&self) -> Version {
        self.corejs_version
    }

    /// The modules imported so far, in order.
    pub closed spec fn items(&self) -> Seq<Seq<char>> {
        import_items(self.imports)
    }

    pub closed spec fn removes_regenerator(&self) -> bool {
        self.remove_regenerator
    }

    pub fn new(is_any_target: bool, corejs_version: Version, remove_regenerator: bool) -> (r: Entry)
        requires
            corejs_version.major == 3,
        ensures
            r.any_target() == is_any_target,
            r.corejs() == corejs_version,
            r.removes_regenerator() == remove_regenerator,
            r.items() == Seq::<Seq<char>>::empty(),
    {
        Entry { is_any_target, corejs_version, imports: empty_imports(), remove_regenerator }
    }

    /// Adds the modules that the entry import `src` stands for, given the
    /// features listed for it (`None` where `src` is no entry). Returns
    /// whether the import is replaced.
    pub fn add(&mut self, src: &str, features: Option<&Vec<Feature>>) -> (r: bool)
        ensures
            final(self).any_target() == old(self).any_target(),
            final(self).corejs() == old(self).corejs(),
            final(self).removes_regenerator() == old(self).removes_regenerator(),
            old(self).removes_regenerator() && src@ == regenerator_runtime() ==> r && final(self).items()
                == old(self).items(),
            !(old(self).removes_regenerator() && src@ == regenerator_runtime()) ==> match features {
                None => !r && final(self).items() == old(self).items(),
                Some(fs) => r && final(self).items() == with_features(
                    old(self).items(),
                    old(self).any_target(),
                    old(self).corejs(),
                    fs@,
                ),
            },
    {
        let runtime = String::from_str("regenerator-runtime/runtime.js");
        if self.remove_regenerator && String::from_str(src) == runtime {
            return true;
        }
        match features {
            None => false,
            Some(fs) => {
                let ghost start = import_items(self.imports);
                let ghost any0 = self.is_any_target;
                let ghost cv0 = self.corejs_version;
                let ghost rr0 = self.remove_regenerator;
                let mut i: usize = 0;
                while i < fs.len()
                    invariant
                        i <= fs@.len(),
                        self.is_any_target == any0,
                        self.corejs_version == cv0,
                        self.remove_regenerator == rr0,
                        import_items(self.imports) == with_features(start, self.is_any_target, self.corejs_version,
                            fs@.subrange(0, i as int)),
                    decreases fs@.len() - i,
                {
                    assert(fs@.subrange(0, i + 1).drop_last() =~= fs@.subrange(0, i as int));
                    let f = &fs[i];
                    let targeted = self.is_any_target || match f.enabled_for_target {
                        Some(b) => b,
                        None => true,
                    };
                    let in_version = match &f.min_corejs {
                        Some(v) => v.le(&self.corejs_version),
                        None => true,
                    };
                    if targeted && in_version {
                        insert_import(&mut self.imports, f.name.clone());
                    }
                    i = i + 1;
                }
                assert(fs@.subrange(0, fs@.len() as int) =~= fs@);
                true
            },
        }
    }

    /// An import with no bindings whose source is an entry loses its
    /// source: the modules it stands for are imported instead.
    pub fn fold_import_decl(&mut self, i: ImportDecl, features: Option<&Vec<Feature>>) -> (r: ImportDecl)
        ensures
            r.span == i.span,
            r.specifiers == i.specifiers,
            r.type_only == i.type_only,
            i.specifiers@.len() > 0 ==> r.src == i.src && final(self).items() == old(self).items(),
            i.specifiers@.len() == 0 && (old(self).removes_regenerator() && i.src@ == regenerator_runtime()
                || features is Some) ==> r.src@.len() == 0,
            i.specifiers@.len() == 0 && !(old(self).removes_regenerator() && i.src@ == regenerator_runtime())
                && features is None ==> r.src == i.src,
            final(self).any_target() == old(self).any_target(),
            final(self).corejs() == old(self).corejs(),
            final(self).removes_regenerator() == old(self).removes_regenerator(),
            i.specifiers@.len() == 0 ==> if old(self).removes_regenerator() && i.src@ == regenerator_runtime() {
                final(self).items() == old(self).items()
            } else {
                match features {
                    None => final(self).items() == old(self).items(),
                    Some(fs) => final(self).items() == with_features(
                        old(self).items(),
                        old(self).any_target(),
                        old(self).corejs(),
                        fs@,
                    ),
                }
            },
    {
        if i.specifiers.len() == 0 && self.add(i.src.as_str(), features) {
            ImportDecl { span: i.span, specifiers: i.specifiers, src: String::new(), type_only: i.type_only }
        } else {
            i
        }
    }
}

} // verus!
