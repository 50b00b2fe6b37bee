use vstd::prelude::*;

use crate::extn_id::{ExtnId, ExtnIdView};

verus! {

/// The text form of each string in a list.
pub open spec fn strings_view(v: Seq<String>) -> Seq<Seq<char>> {
    v.map_values(|s: String| s@)
}

pub fn clone_strings(v: &Vec<String>) -> (r: Vec<String>)
    ensures
        strings_view(r@) == strings_view(v@),
{
    let r = v.clone();
    proof {
        assert(strings_view(r@) =~= strings_view(v@));
    }
    r
}

/// Whether a text is one of the list's texts.
pub fn contains_string(v: &Vec<String>, s: &String) -> (r: bool)
    ensures
        r == strings_view(v@).contains(s@),
{
    let ghost sv = strings_view(v@);
    let mut i: usize = 0;
    while i < v.len()
        invariant
            i <= v@.len(),
            sv == strings_view(v@),
            forall|k: int| 0 <= k < i ==> sv[k] != s@,
        decreases v@.len() - i,
    {
        assert(sv[i as int] == v@[i as int]@);
        if v[i] == *s {
            return true;
        }
        i = i + 1;
    }
    false
}

/// A symbol that a manifest entry expects from its library: the id text and
/// the capabilities that the symbol's sender may use.
#[derive(Debug)]
pub struct ExtnSymbol {
    pub id: String,
    pub uses: Vec<String>,
    pub fulfills: Vec<String>,
}

pub struct ExtnSymbolView {
    pub id: Seq<char>,
    pub uses: Seq<Seq<char>>,
    pub fulfills: Seq<Seq<char>>,
}

impl View for ExtnSymbol {
    type V = ExtnSymbolView;

    open spec fn view(&self) -> ExtnSymbolView {
        ExtnSymbolView {
            id: self.id@,
            uses: strings_view(self.uses@),
            fulfills: strings_view(self.fulfills@),
        }
    }
}

impl Clone for ExtnSymbol {
    fn clone(&self) -> (r: ExtnSymbol)
        ensures
            r@ == self@,
    {
        ExtnSymbol {
            id: self.id.clone(),
            uses: clone_strings(&self.uses),
            fulfills: clone_strings(&self.fulfills),
        }
    }
}

/// One entry of the extension manifest: where the library is and which symbols it should offer.
#[derive(Debug, Clone)]
pub struct ExtnManifestEntry {
    pub path: String,
    pub symbols: Vec<ExtnSymbol>,
}

/// What a library declares about one of its symbols.
#[derive(Debug, Clone)]
pub struct ExtnSymbolMetadata {
    pub id: ExtnId,
}

/// The metadata that a loaded library exports.
#[derive(Debug, Clone)]
pub struct ExtnMetadata {
    pub name: String,
    pub symbols: Vec<ExtnSymbolMetadata>,
}

/// The ids that the metadata declares, in order.
pub open spec fn metadata_ids(m: Seq<ExtnSymbolMetadata>) -> Seq<ExtnIdView> {
    m.map_values(|s: ExtnSymbolMetadata| s.id@)
}

} // verus!
