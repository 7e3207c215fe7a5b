use crate::utils::strings::{
    decimal, hex_padded, lemma_hex_padded_len, push_decimal, push_hex_padded, starts_with,
};
use vstd::prelude::*;
use vstd::string::*;

verus! {

// ===============================================================================================
//
// Progress notifications of physics computations.
//
// Tabulating the physics goes through `SECTIONS` sections. At the start of a
// section, the computation configures the notifier with the section's title,
// and a progress bar starts; the next configuration closes it.
//
// ===============================================================================================

/// The number of sections of a physics computation.
pub const SECTIONS: usize = 4;

/// The label of physics tables computed with the given models of
/// Bremsstrahlung, pair production and photonuclear interactions.
pub open spec fn physics_tag_text(
    bremsstrahlung: Seq<char>,
    pair_production: Seq<char>,
    photonuclear: Seq<char>,
) -> Seq<char> {
    bremsstrahlung + "-"@ + pair_production + "-"@ + photonuclear
}

/// The label of physics tables (see `physics_tag_text`).
pub fn physics_tag(bremsstrahlung: &str, pair_production: &str, photonuclear: &str) -> (res: String)
    ensures
        res@ == physics_tag_text(bremsstrahlung@, pair_production@, photonuclear@),
{
    proof {
        reveal_strlit("-");
    }
    let mut res = bremsstrahlung.to_owned();
    res.append("-");
    res.append(pair_production);
    res.append("-");
    res.append(photonuclear);
    res
}

/// The short form of a hash: the first 7 digits of its 16 hexadecimal digits.
pub open spec fn short_hash_text(hash: u64) -> Seq<char> {
    hex_padded(hash as nat, 16).take(7)
}

/// The title of a section, as a plural: unchanged when it already starts
/// with "multiple", else followed by "s".
pub open spec fn plural_title(title: Seq<char>) -> Seq<char> {
    if "multiple"@.is_prefix_of(title) {
        title
    } else {
        title + "s"@
    }
}

/// The label of section `section`, as in "[2/4]".
pub open spec fn section_label_text(section: nat) -> Seq<char> {
    "["@ + decimal(section) + "/"@ + decimal(SECTIONS as nat) + "]"@
}

/// What a progress bar announces for a section with the given title.
pub open spec fn section_text(title: Seq<char>, hash: Seq<char>) -> Seq<char> {
    "Computing "@ + plural_title(title) + " ("@ + hash + ")"@
}

/// The start of a progress bar: the section label (which is displayed
/// dimmed) and the announcement that follows it.
pub struct SectionStart {
    pub label: String,
    pub text: String,
}

/// The state of the notifier of a physics computation.
pub struct NotifierState {
    hash: String,
    section: usize,
    active: bool,
}

impl NotifierState {
    pub closed spec fn hash_text(&self) -> Seq<char> {
        self.hash@
    }

    pub closed spec fn section_index(&self) -> nat {
        self.section as nat
    }

    pub closed spec fn is_active(&self) -> bool {
        self.active
    }

    /// A notifier for the computation of physics tables of the given hash,
    /// before its first section.
    pub fn new(hash: u64) -> (res: Self)
        ensures
            res.hash_text() == short_hash_text(hash),
            res.section_index() == 0,
            !res.is_active(),
    {
        let mut digits = String::new();
        push_hex_padded(&mut digits, hash, 16);
        proof {
            lemma_hex_padded_len(hash as nat, 16);
        }
        let short = digits.as_str().substring_char(0, 7).to_owned();
        NotifierState { hash: short, section: 0, active: false }
    }

    /// The short hash shown in notifications.
    pub fn hash(&self) -> (res: &str)
        ensures
            res@ == self.hash_text(),
    {
        self.hash.as_str()
    }

    /// The number of sections started so far.
    pub fn section(&self) -> (res: usize)
        ensures
            res == self.section_index(),
    {
        self.section
    }

    /// Whether a progress bar is running.
    pub fn active(&self) -> (res: bool)
        ensures
            res == self.is_active(),
    {
        self.active
    }

    /// Configures the notifier. When no progress bar runs, a new section
    /// starts, with the given title, and what its bar announces is returned;
    /// otherwise the running bar ends, and `None` is returned.
    pub fn configure(&mut self, title: Option<&str>) -> (res: Option<SectionStart>)
        requires
            !old(self).is_active() ==> title is Some,
            !old(self).is_active() ==> old(self).section_index() < usize::MAX,
        ensures
            final(self).hash_text() == old(self).hash_text(),
            final(self).is_active() == !old(self).is_active(),
            old(self).is_active() ==> res is None && final(self).section_index() == old(self).section_index(),
            !old(self).is_active() ==> {
                &&& final(self).section_index() == old(self).section_index() + 1
                &&& res is Some
                &&& res.unwrap().label@ == section_label_text(final(self).section_index())
                &&& res.unwrap().text@ == section_text(title.unwrap()@, old(self).hash_text())
            },
    {
        if self.active {
            self.active = false;
            None
        } else {
            proof {
                reveal_strlit("[");
                reveal_strlit("/");
                reveal_strlit("]");
                reveal_strlit("s");
                reveal_strlit("Computing ");
                reveal_strlit(" (");
                reveal_strlit(")");
            }
            self.section = self.section + 1;
            self.active = true;
            let title = match title {
                Some(title) => title,
                None => "",
            };
            let mut label = String::from_str("[");
            push_decimal(&mut label, self.section as u64);
            label.append("/");
            push_decimal(&mut label, SECTIONS as u64);
            label.append("]");
            let mut text = String::from_str("Computing ");
            text.append(title);
            if !starts_with(title, "multiple") {
                text.append("s");
            }
            text.append(" (");
            text.append(self.hash.as_str());
            text.append(")");
            assert(text@ =~= section_text(title@, self.hash@));
            Some(SectionStart { label, text })
        }
    }
}

} // verus!
