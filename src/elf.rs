//! Attach-point resolution from a compiled probe image: which section each
//! symbol lives in, and the hook and category encoded in a section's name.
use object::{Object, ObjectSection, ObjectSymbol};
use vstd::prelude::*;
use vstd::string::StrSliceExecFns;

verus! {

#[verifier::external_type_specification]
#[verifier::external_body]
pub struct ExObjectError(object::read::Error);

/// One entry for each symbol of the symbol table of the object file `data`,
/// in table order: the symbol's name, and the name of the section it lies
/// in, each absent where it cannot be had; `None` when `data` is not an
/// object file.
pub uninterp spec fn elf_symbol_table(data: Seq<u8>) -> Option<
    Seq<(Option<Seq<char>>, Option<Seq<char>>)>,
>;

pub open spec fn pairs_view(v: Seq<(String, String)>) -> Seq<(Seq<char>, Seq<char>)> {
    Seq::new(v.len(), |j: int| (v[j].0@, v[j].1@))
}

pub open spec fn opt_str_view(o: Option<String>) -> Option<Seq<char>> {
    match o {
        Some(s) => Some(s@),
        None => None,
    }
}

pub open spec fn table_view(v: Seq<(Option<String>, Option<String>)>) -> Seq<
    (Option<Seq<char>>, Option<Seq<char>>),
> {
    Seq::new(v.len(), |j: int| (opt_str_view(v[j].0), opt_str_view(v[j].1)))
}

/// The defined symbols of a symbol table: the entries whose name and section
/// name are both present, in table order.
pub open spec fn defined_pairs(t: Seq<(Option<Seq<char>>, Option<Seq<char>>)>) -> Seq<
    (Seq<char>, Seq<char>),
>
    decreases t.len(),
{
    if t.len() == 0 {
        Seq::empty()
    } else {
        let rest = defined_pairs(t.drop_last());
        match t.last() {
            (Some(n), Some(sec)) => rest.push((n, sec)),
            _ => rest,
        }
    }
}

/// Relies on object::read::File::parse and the symbol table it reads
/// (`symbols`, `ObjectSymbol::name`, `section_index`, `section_by_index`,
/// `ObjectSection::name`): one entry per symbol, its name and its section's
/// name, each `None` where object reports none or an error.
#[verifier::external_body]
fn symbol_table(data: &[u8]) -> (r: Result<Vec<(Option<String>, Option<String>)>, object::read::Error>)
    ensures
        match r {
            Ok(v) => elf_symbol_table(data@) == Some(table_view(v@)),
            Err(_) => elf_symbol_table(data@) is None,
        },
{
    let file = object::read::File::parse(data)?;
    Ok(file.symbols().map(|sym| {
        let section = sym.section_index().and_then(|i| file.section_by_index(i).ok());
        let section_name = section.and_then(|sec| sec.name().ok().map(|n| n.to_string()));
        (sym.name().ok().map(|n| n.to_string()), section_name)
    }).collect())
}

/// The symbols of a symbol table that lie in a section, with that section's
/// name, in table order.
pub fn defined_symbols(table: Vec<(Option<String>, Option<String>)>) -> (r: Vec<(String, String)>)
    ensures
        pairs_view(r@) == defined_pairs(table_view(table@)),
{
    let mut out: Vec<(String, String)> = Vec::new();
    let mut rest = table;
    let ghost orig = table_view(rest@);
    let ghost mut k: int = 0;
    while rest.len() > 0
        invariant
            0 <= k <= orig.len(),
            k + rest@.len() == orig.len(),
            table_view(rest@) == orig.subrange(k, orig.len() as int),
            pairs_view(out@) == defined_pairs(orig.subrange(0, k)),
        decreases rest@.len(),
    {
        let ghost before = out@;
        let ghost r0 = rest@;
        assert(table_view(r0)[0] == orig.subrange(k, orig.len() as int)[0]);
        let entry = rest.remove(0);
        assert(entry == r0[0]);
        assert(table_view(rest@) =~= table_view(r0).subrange(1, r0.len() as int));
        assert(table_view(rest@) =~= orig.subrange(k + 1, orig.len() as int));
        assert(orig[k] == (opt_str_view(entry.0), opt_str_view(entry.1)));
        assert(orig.subrange(0, k + 1).drop_last() =~= orig.subrange(0, k));
        match entry {
            (Some(name), Some(section)) => {
                out.push((name, section));
                assert(pairs_view(out@) =~= pairs_view(before).push(
                    (out@.last().0@, out@.last().1@),
                ));
            },
            _ => {},
        }
        proof {
            k = k + 1;
        }
    }
    assert(orig.subrange(0, k) =~= orig);
    out
}

/// The map from symbol name to section name that the pairs give, a later
/// pair winning over an earlier one with the same symbol.
pub open spec fn pairs_to_map(p: Seq<(Seq<char>, Seq<char>)>) -> Map<Seq<char>, Seq<char>>
    decreases p.len(),
{
    if p.len() == 0 {
        Map::empty()
    } else {
        pairs_to_map(p.drop_last()).insert(p.last().0, p.last().1)
    }
}

proof fn lemma_pairs_to_map_skip(p: Seq<(Seq<char>, Seq<char>)>, i: int, k: Seq<char>)
    requires
        0 <= i <= p.len(),
        forall|j: int| i <= j < p.len() ==> p[j].0 != k,
    ensures
        pairs_to_map(p).contains_key(k) == pairs_to_map(p.subrange(0, i)).contains_key(k),
        pairs_to_map(p).contains_key(k) ==> pairs_to_map(p)[k] == pairs_to_map(
            p.subrange(0, i),
        )[k],
    decreases p.len() - i,
{
    if i < p.len() {
        assert(p.drop_last() =~= p.subrange(0, p.len() - 1));
        lemma_pairs_to_map_skip(p.drop_last(), i, k);
        assert(p.drop_last().subrange(0, i) =~= p.subrange(0, i));
    } else {
        assert(p.subrange(0, i) =~= p);
    }
}

#[derive(Debug)]
pub enum ElfError {
    Object(object::read::Error),
}

/// Where a symbol lives.
#[derive(Debug, Clone)]
pub struct SymbolInfo {
    pub section_name: String,
}

/// The symbols of a compiled probe image, with their sections.
#[derive(Debug)]
pub struct ElfInfo {
    symbols: Vec<(String, SymbolInfo)>,
}

impl ElfInfo {
    /// The (symbol, section) pairs, in the order they were read.
    pub closed spec fn pairs(&self) -> Seq<(Seq<char>, Seq<char>)> {
        Seq::new(
            self.symbols@.len(),
            |j: int| (self.symbols@[j].0@, self.symbols@[j].1.section_name@),
        )
    }

    /// Section name of each symbol.
    pub open spec fn symbol_map(&self) -> Map<Seq<char>, Seq<char>> {
        pairs_to_map(self.pairs())
    }

    /// Collects the (symbol, section) pairs read from an image.
    pub fn from_symbols(pairs: Vec<(String, String)>) -> (r: ElfInfo)
        ensures
            r.pairs() == pairs_view(pairs@),
    {
        let mut symbols: Vec<(String, SymbolInfo)> = Vec::new();
        let mut i: usize = 0;
        while i < pairs.len()
            invariant
                i <= pairs@.len(),
                symbols@.len() == i,
                forall|j: int|
                    0 <= j < i ==> symbols@[j].0@ == pairs@[j].0@ && symbols@[j].1.section_name@
                        == pairs@[j].1@,
            decreases pairs@.len() - i,
        {
            let name = pairs[i].0.clone();
            let section_name = pairs[i].1.clone();
            symbols.push((name, SymbolInfo { section_name }));
            i = i + 1;
        }
        let r = ElfInfo { symbols };
        assert(r.pairs() =~= pairs_view(pairs@));
        r
    }

    /// Parses the compiled probe image and records the section of every
    /// defined symbol: one whose name and section name can both be read.
    pub fn from_raw_elf(data: &[u8]) -> (r: Result<ElfInfo, ElfError>)
        ensures
            match r {
                Ok(info) => elf_symbol_table(data@) matches Some(t) && info.pairs()
                    == defined_pairs(t),
                Err(_) => elf_symbol_table(data@) is None,
            },
    {
        match symbol_table(data) {
            Ok(table) => Ok(Self::from_symbols(defined_symbols(table))),
            Err(e) => Err(ElfError::Object(e)),
        }
    }

    /// The section of symbol `symbol_name`, if the image defines it.
    pub fn get_by_symbol_name(&self, symbol_name: &str) -> (r: Option<&SymbolInfo>)
        ensures
            match r {
                Some(info) => self.symbol_map().contains_key(symbol_name@)
                    && self.symbol_map()[symbol_name@] == info.section_name@,
                None => !self.symbol_map().contains_key(symbol_name@),
            },
    {
        let ghost p = self.pairs();
        let mut i: usize = self.symbols.len();
        while i > 0
            invariant
                i <= self.symbols@.len(),
                p == self.pairs(),
                forall|j: int| i <= j < p.len() ==> p[j].0 != symbol_name@,
            decreases i,
        {
            let name: &str = self.symbols[i - 1].0.as_str();
            if str_eq(name, symbol_name) {
                proof {
                    lemma_pairs_to_map_skip(p, i as int, symbol_name@);
                    assert(p.subrange(0, i as int).drop_last() =~= p.subrange(0, i - 1));
                }
                return Some(&self.symbols[i - 1].1);
            }
            i = i - 1;
        }
        proof {
            lemma_pairs_to_map_skip(p, 0, symbol_name@);
            assert(p.subrange(0, 0) =~= Seq::<(Seq<char>, Seq<char>)>::empty());
        }
        None
    }
}

/// Whether two strings hold the same characters.
fn str_eq(a: &str, b: &str) -> (r: bool)
    ensures
        r == (a@ == b@),
{
    let n = a.unicode_len();
    if n != b.unicode_len() {
        return false;
    }
    let mut i: usize = 0;
    while i < n
        invariant
            n == a@.len() == b@.len(),
            i <= n,
            forall|j: int| 0 <= j < i ==> a@[j] == b@[j],
        decreases n - i,
    {
        if a.get_char(i) != b.get_char(i) {
            return false;
        }
        i = i + 1;
    }
    assert(a@ =~= b@);
    true
}

} // verus!
