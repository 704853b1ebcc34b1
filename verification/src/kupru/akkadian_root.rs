//! The Akkadian linguistic root system: tri-consonantal roots drawn from
//! a phrase, their key material, and linguistic commitments.

use vstd::prelude::*;
use vstd::utf8::encode_utf8;
use vstd::string::StringSliceAdditionalSpecFns;
use crate::text::{
    contains_chars, contains_seq, count_words, lowercase_of, str_chars, string_push,
    to_lowercase_string, trim_of, trim_str, word_count,
};
use crate::kupru::canonical::extend_bytes;
use crate::kupru::error::{KupruError, KupruResult};
use crate::kupru::primitives::{ct_eq, random_bytes, sha3_256, sha3_256_of};

verus! {

/// Domain separator for linguistic commitments.
pub const COMMITMENT_DOMAIN: &'static str = "BahyWay.LinguisticProof.v353";

/// The vowel pattern of a root.
#[derive(Debug, Clone, Copy, PartialEq, Eq, Structural)]
pub enum VowelPattern {
    Aa,
    Ai,
    Ia,
    Uu,
    Ui,
    Au,
}

impl Default for VowelPattern {
    fn default() -> (p: Self)
        ensures
            p == VowelPattern::Aa,
    {
        VowelPattern::Aa
    }
}

/// The entropy weight each vowel pattern contributes to key material.
pub open spec fn pattern_weight(p: VowelPattern) -> u8 {
    match p {
        VowelPattern::Aa => 0x2A,
        VowelPattern::Ai => 0x3C,
        VowelPattern::Ia => 0x4E,
        VowelPattern::Uu => 0x5F,
        VowelPattern::Ui => 0x71,
        VowelPattern::Au => 0x83,
    }
}

impl VowelPattern {
    /// The entropy weight of the pattern.
    pub fn entropy_weight(self) -> (w: u8)
        ensures
            w == pattern_weight(self),
    {
        match self {
            VowelPattern::Aa => 0x2A,
            VowelPattern::Ai => 0x3C,
            VowelPattern::Ia => 0x4E,
            VowelPattern::Uu => 0x5F,
            VowelPattern::Ui => 0x71,
            VowelPattern::Au => 0x83,
        }
    }
}

/// Optional prefix, suffix and infix of a root.
#[derive(Debug, Clone)]
pub struct AkkadianAffixes {
    pub prefix: Option<String>,
    pub suffix: Option<String>,
    pub infix: Option<String>,
}

/// No affix is set.
pub open spec fn no_affixes(a: AkkadianAffixes) -> bool {
    a.prefix is None && a.suffix is None && a.infix is None
}

impl Default for AkkadianAffixes {
    fn default() -> (a: Self)
        ensures
            no_affixes(a),
    {
        AkkadianAffixes { prefix: None, suffix: None, infix: None }
    }
}

/// A tri-consonantal root with its vowel pattern and affixes.
#[derive(Debug, Clone)]
pub struct AkkadianRoot {
    pub radicals: [char; 3],
    pub pattern: VowelPattern,
    pub affixes: AkkadianAffixes,
}

/// The vowels a phrase's pattern is read from.
pub open spec fn is_vowel(c: char) -> bool {
    c == 'a' || c == 'e' || c == 'i' || c == 'o' || c == 'u'
}

/// The characters kept as radicals: everything but vowels, spaces and
/// hyphens.
pub open spec fn is_radical(c: char) -> bool {
    !(is_vowel(c) || c == ' ' || c == '-')
}

/// The radical characters of a phrase, in order.
pub open spec fn radicals_of(s: Seq<char>) -> Seq<char> {
    s.filter(|c: char| is_radical(c))
}

/// The vowels of a phrase, in order.
pub open spec fn vowels_of(s: Seq<char>) -> Seq<char> {
    s.filter(|c: char| is_vowel(c))
}

/// The vowel pattern named by the first two vowels; `Aa` otherwise.
pub open spec fn pattern_of_vowels(v: Seq<char>) -> VowelPattern {
    if v.len() < 2 {
        VowelPattern::Aa
    } else if v[0] == 'a' && v[1] == 'a' {
        VowelPattern::Aa
    } else if v[0] == 'a' && v[1] == 'i' {
        VowelPattern::Ai
    } else if v[0] == 'i' && v[1] == 'a' {
        VowelPattern::Ia
    } else if v[0] == 'u' && v[1] == 'u' {
        VowelPattern::Uu
    } else if v[0] == 'u' && v[1] == 'i' {
        VowelPattern::Ui
    } else if v[0] == 'a' && v[1] == 'u' {
        VowelPattern::Au
    } else {
        VowelPattern::Aa
    }
}

/// A phrase as roots are read from it: trimmed, then lowercased.
pub open spec fn normalized_phrase(phrase: Seq<char>) -> Seq<char> {
    lowercase_of(trim_of(phrase))
}

/// The UTF-8 bytes of an optional string (none for `None`).
pub open spec fn optional_utf8(s: Option<String>) -> Seq<u8> {
    match s {
        Some(t) => encode_utf8(t@),
        None => Seq::empty(),
    }
}

/// What the key material of a root hashes: the UTF-8 radicals, the
/// pattern's weight, then the prefix and suffix.
pub open spec fn key_material_input(root: AkkadianRoot) -> Seq<u8> {
    encode_utf8(root.radicals@) + seq![pattern_weight(root.pattern)] + optional_utf8(
        root.affixes.prefix,
    ) + optional_utf8(root.affixes.suffix)
}

/// Splits a phrase into its radicals and vowels.
fn split_phrase(s: &Vec<char>) -> (r: (Vec<char>, Vec<char>))
    ensures
        r.0@ == radicals_of(s@),
        r.1@ == vowels_of(s@),
{
    let mut cons: Vec<char> = Vec::new();
    let mut vows: Vec<char> = Vec::new();
    let mut i: usize = 0;
    while i < s.len()
        invariant
            0 <= i <= s@.len(),
            cons@ == radicals_of(s@.subrange(0, i as int)),
            vows@ == vowels_of(s@.subrange(0, i as int)),
        decreases s@.len() - i,
    {
        let c = s[i];
        let vowel = c == 'a' || c == 'e' || c == 'i' || c == 'o' || c == 'u';
        if vowel {
            vows.push(c);
        } else if c != ' ' && c != '-' {
            cons.push(c);
        }
        i = i + 1;
        proof {
            let t = s@.subrange(0, i as int);
            assert(t.drop_last() =~= s@.subrange(0, i - 1));
            assert(t.last() == c);
            reveal(Seq::filter);
            assert(radicals_of(t) == if is_radical(c) {
                radicals_of(t.drop_last()).push(c)
            } else {
                radicals_of(t.drop_last())
            });
            assert(vowels_of(t) == if is_vowel(c) {
                vowels_of(t.drop_last()).push(c)
            } else {
                vowels_of(t.drop_last())
            });
        }
    }
    assert(s@.subrange(0, s@.len() as int) =~= s@);
    (cons, vows)
}

/// Reads the vowel pattern from a phrase's vowels.
fn pattern_from_vowels(v: &Vec<char>) -> (p: VowelPattern)
    ensures
        p == pattern_of_vowels(v@),
{
    if v.len() < 2 {
        return VowelPattern::Aa;
    }
    let a = v[0];
    let b = v[1];
    if a == 'a' && b == 'a' {
        VowelPattern::Aa
    } else if a == 'a' && b == 'i' {
        VowelPattern::Ai
    } else if a == 'i' && b == 'a' {
        VowelPattern::Ia
    } else if a == 'u' && b == 'u' {
        VowelPattern::Uu
    } else if a == 'u' && b == 'i' {
        VowelPattern::Ui
    } else if a == 'a' && b == 'u' {
        VowelPattern::Au
    } else {
        VowelPattern::Aa
    }
}

/// Appends the UTF-8 bytes of an optional string.
fn extend_optional(buf: &mut Vec<u8>, s: &Option<String>)
    ensures
        final(buf)@ == old(buf)@ + optional_utf8(*s),
{
    match s {
        Some(t) => {
            extend_bytes(buf, t.as_str().as_bytes());
        },
        None => {
            assert(old(buf)@ + Seq::<u8>::empty() =~= old(buf)@);
        },
    }
}

impl AkkadianRoot {
    /// A root from three radicals and a pattern, without affixes.
    pub fn new(r1: char, r2: char, r3: char, pattern: VowelPattern) -> (root: Self)
        ensures
            root.radicals@ == seq![r1, r2, r3],
            root.pattern == pattern,
            no_affixes(root.affixes),
    {
        let root = AkkadianRoot { radicals: [r1, r2, r3], pattern, affixes: AkkadianAffixes::default() };
        assert(root.radicals@ =~= seq![r1, r2, r3]);
        root
    }

    /// The root of Sargon: Š-R-K with the `Ui` pattern.
    pub fn sargon() -> (root: Self)
        ensures
            root.radicals@ == seq!['Š', 'R', 'K'],
            root.pattern == VowelPattern::Ui,
            no_affixes(root.affixes),
    {
        Self::new('Š', 'R', 'K', VowelPattern::Ui)
    }

    /// The root of a phrase: the phrase is trimmed and lowercased, its
    /// first three radicals become the root and its first two vowels
    /// name the pattern. An empty phrase, or one with fewer than three
    /// radicals, is refused.
    pub fn from_phrase(phrase: &str) -> (r: KupruResult<Self>)
        ensures
            ({
                let n = normalized_phrase(phrase@);
                &&& n.len() == 0 ==> (r matches Err(KupruError::InvalidInput(m)) && m@
                    == "LEMNĪ: empty phrase"@)
                &&& (n.len() > 0 && radicals_of(n).len() < 3) ==> (r matches Err(
                    KupruError::InvalidInput(m),
                ) && m@ == "LEMNĪ: < 3 consonants"@)
                &&& (n.len() > 0 && radicals_of(n).len() >= 3) ==> (r matches Ok(root) && root.radicals@
                    == radicals_of(n).take(3) && root.pattern == pattern_of_vowels(vowels_of(n))
                    && no_affixes(root.affixes))
            }),
    {
        let normalized = to_lowercase_string(trim_str(phrase));
        let chars = str_chars(normalized.as_str());
        if chars.len() == 0 {
            return Err(KupruError::InvalidInput("LEMNĪ: empty phrase".to_owned()));
        }
        let (cons, vows) = split_phrase(&chars);
        if cons.len() < 3 {
            return Err(KupruError::InvalidInput("LEMNĪ: < 3 consonants".to_owned()));
        }
        let pattern = pattern_from_vowels(&vows);
        let root = AkkadianRoot {
            radicals: [cons[0], cons[1], cons[2]],
            pattern,
            affixes: AkkadianAffixes::default(),
        };
        assert(root.radicals@ =~= cons@.take(3));
        Ok(root)
    }

    /// The 32-byte key material of the root: SHA3-256 over the UTF-8
    /// radicals, the pattern's weight, the prefix and the suffix.
    pub fn to_key_material(&self) -> (k: [u8; 32])
        ensures
            k@ == sha3_256_of(key_material_input(*self)),
    {
        let mut rads = String::new();
        string_push(&mut rads, self.radicals[0]);
        string_push(&mut rads, self.radicals[1]);
        string_push(&mut rads, self.radicals[2]);
        assert(rads@ =~= self.radicals@);
        let mut buf: Vec<u8> = Vec::new();
        extend_bytes(&mut buf, rads.as_str().as_bytes());
        buf.push(self.pattern.entropy_weight());
        extend_optional(&mut buf, &self.affixes.prefix);
        extend_optional(&mut buf, &self.affixes.suffix);
        assert(buf@ =~= key_material_input(*self));
        sha3_256(buf.as_slice())
    }
}

/// An Akkadian personal name: name, father, epithet and deity.
#[derive(Debug, Clone)]
pub struct AkkadianName {
    pub sumu: String,
    pub abu: Option<String>,
    pub asaredu: Option<String>,
    pub ilu: Option<String>,
}

impl AkkadianName {
    /// The scribe's name: DUB.SAR, "Šar Kibrāt Arbaim", under Nabû.
    pub fn dubsar() -> (n: Self)
        ensures
            n.sumu@ == "DUB.SAR"@,
            n.abu is None,
            n.asaredu matches Some(e) && e@ == "Šar Kibrāt Arbaim"@,
            n.ilu matches Some(g) && g@ == "Nabû"@,
    {
        AkkadianName {
            sumu: "DUB.SAR".to_owned(),
            abu: None,
            asaredu: Some("Šar Kibrāt Arbaim".to_owned()),
            ilu: Some("Nabû".to_owned()),
        }
    }
}

/// A commitment to a phrase: its root, SHA3-256 over the domain, the
/// phrase and a 32-byte nonce, and the phrase's morphology score.
#[derive(Debug, Clone)]
pub struct LinguisticProof {
    pub root: AkkadianRoot,
    pub commitment: [u8; 32],
    pub nonce: [u8; 32],
    pub mudu: u8,
}

/// What a commitment hashes: the domain, the phrase and the nonce.
pub open spec fn commitment_input(phrase: Seq<char>, nonce: Seq<u8>) -> Seq<u8> {
    encode_utf8(COMMITMENT_DOMAIN@) + encode_utf8(phrase) + nonce
}

/// The letters of the transliteration that score as marked.
pub open spec fn is_marked_letter(c: char) -> bool {
    c == 'š' || c == 'ṣ' || c == 'ṭ' || c == 'ḫ' || c == 'ā' || c == 'ī' || c == 'ū'
}

/// The morphology score of a lowercased phrase: one point each for a
/// hyphen, more than eight characters, more than one word, one of "um",
/// "im" or "am", and more than sixteen UTF-8 bytes; two points for a
/// marked letter; at most seven.
pub open spec fn morphology_score(p: Seq<char>) -> u8 {
    let s: int = (if p.contains('-') { 1int } else { 0int }) + (if p.len() > 8 { 1int } else { 0int })
        + (if exists|i: int| 0 <= i < p.len() && is_marked_letter(#[trigger] p[i]) { 2int } else { 0int })
        + (if word_count(p) > 1 { 1int } else { 0int }) + (if contains_seq(p, seq!['u', 'm'])
        || contains_seq(p, seq!['i', 'm']) || contains_seq(p, seq!['a', 'm']) { 1int } else { 0int })
        + (if encode_utf8(p).len() > 16 { 1int } else { 0int });
    if s > 7 { 7 } else { s as u8 }
}

/// Copies 32 bytes into an array.
pub fn array32(v: &[u8]) -> (a: [u8; 32])
    requires
        v@.len() == 32,
    ensures
        a@ == v@,
{
    let mut a = [0u8; 32];
    let mut i: usize = 0;
    while i < 32
        invariant
            v@.len() == 32,
            0 <= i <= 32,
            a@.len() == 32,
            forall|j: int| 0 <= j < i ==> a@[j] == v@[j],
        decreases 32 - i,
    {
        a[i] = v[i];
        i = i + 1;
    }
    assert(a@ =~= v@);
    a
}

/// Whether a character sequence holds a marked letter.
fn has_marked_letter(p: &Vec<char>) -> (b: bool)
    ensures
        b == exists|i: int| 0 <= i < p@.len() && is_marked_letter(#[trigger] p@[i]),
{
    let mut i: usize = 0;
    while i < p.len()
        invariant
            0 <= i <= p@.len(),
            forall|j: int| 0 <= j < i ==> !is_marked_letter(#[trigger] p@[j]),
        decreases p@.len() - i,
    {
        let c = p[i];
        if c == 'š' || c == 'ṣ' || c == 'ṭ' || c == 'ḫ' || c == 'ā' || c == 'ī' || c == 'ū' {
            assert(is_marked_letter(p@[i as int]));
            return true;
        }
        i = i + 1;
    }
    false
}

/// Whether a character sequence holds a given character.
fn has_char(p: &Vec<char>, c: char) -> (b: bool)
    ensures
        b == p@.contains(c),
{
    let mut i: usize = 0;
    while i < p.len()
        invariant
            0 <= i <= p@.len(),
            forall|j: int| 0 <= j < i ==> p@[j] != c,
        decreases p@.len() - i,
    {
        if p[i] == c {
            assert(p@[i as int] == c);
            return true;
        }
        i = i + 1;
    }
    false
}

/// Builds the commitment of a phrase under a nonce.
fn commit(phrase: &str, nonce: &[u8; 32]) -> (c: [u8; 32])
    ensures
        c@ == sha3_256_of(commitment_input(phrase@, nonce@)),
{
    let mut buf: Vec<u8> = Vec::new();
    extend_bytes(&mut buf, COMMITMENT_DOMAIN.as_bytes());
    extend_bytes(&mut buf, phrase.as_bytes());
    extend_bytes(&mut buf, nonce);
    assert(buf@ =~= commitment_input(phrase@, nonce@));
    sha3_256(buf.as_slice())
}

impl LinguisticProof {
    /// Commits to a phrase under a fresh random nonce. Fails as
    /// `AkkadianRoot::from_phrase` does.
    pub fn create(phrase: &str) -> (r: KupruResult<Self>)
        ensures
            ({
                let n = normalized_phrase(phrase@);
                &&& n.len() == 0 ==> (r matches Err(KupruError::InvalidInput(m)) && m@
                    == "LEMNĪ: empty phrase"@)
                &&& (n.len() > 0 && radicals_of(n).len() < 3) ==> (r matches Err(
                    KupruError::InvalidInput(m),
                ) && m@ == "LEMNĪ: < 3 consonants"@)
                &&& (n.len() > 0 && radicals_of(n).len() >= 3) ==> (r matches Ok(p) && p.root.radicals@
                    == radicals_of(n).take(3) && p.root.pattern == pattern_of_vowels(vowels_of(n))
                    && no_affixes(p.root.affixes) && p.commitment@ == sha3_256_of(
                    commitment_input(phrase@, p.nonce@),
                ) && p.mudu == morphology_score(lowercase_of(phrase@)))
            }),
    {
        let root = AkkadianRoot::from_phrase(phrase)?;
        let nv = random_bytes(32);
        let nonce = array32(nv.as_slice());
        let commitment = commit(phrase, &nonce);
        Ok(LinguisticProof { root, commitment, nonce, mudu: Self::score_morphology(phrase) })
    }

    /// Whether the commitment was made to `phrase` (compared in constant
    /// time).
    pub fn verify(&self, phrase: &str) -> (b: bool)
        ensures
            b == (self.commitment@ == sha3_256_of(commitment_input(phrase@, self.nonce@))),
    {
        let expected = commit(phrase, &self.nonce);
        ct_eq(&self.commitment, &expected)
    }

    /// The morphology score of a phrase (see `morphology_score`), read
    /// from its lowercase form.
    fn score_morphology(phrase: &str) -> (s: u8)
        ensures
            s == morphology_score(lowercase_of(phrase@)),
    {
        let p = to_lowercase_string(phrase);
        let chars = str_chars(p.as_str());
        let ps = p.as_str();
        let um = vec!['u', 'm'];
        let im = vec!['i', 'm'];
        let am = vec!['a', 'm'];
        proof {
            assert(um@ =~= seq!['u', 'm']);
            assert(im@ =~= seq!['i', 'm']);
            assert(am@ =~= seq!['a', 'm']);
        }
        let hyphen = has_char(&chars, '-');
        let long = chars.len() > 8;
        let marked = has_marked_letter(&chars);
        let words = count_words(&chars) > 1;
        let case_ending = contains_chars(&chars, &um) || contains_chars(&chars, &im)
            || contains_chars(&chars, &am);
        let wide = ps.as_bytes().len() > 16;
        let total: u8 = (if hyphen { 1u8 } else { 0u8 }) + (if long { 1u8 } else { 0u8 }) + (if marked {
            2u8
        } else {
            0u8
        }) + (if words { 1u8 } else { 0u8 }) + (if case_ending { 1u8 } else { 0u8 }) + (if wide {
            1u8
        } else {
            0u8
        });
        proof {
            let q = lowercase_of(phrase@);
            assert(chars@ == q);
            assert(ps.spec_bytes() == encode_utf8(q));
            assert(hyphen == q.contains('-'));
            assert(long == (q.len() > 8));
            assert(words == (word_count(q) > 1));
            assert(wide == (encode_utf8(q).len() > 16));
            assert(case_ending == (contains_seq(q, seq!['u', 'm']) || contains_seq(q, seq!['i', 'm'])
                || contains_seq(q, seq!['a', 'm'])));
        }
        let s: u8 = if total > 7 {
            7
        } else {
            total
        };
        s
    }
}

/// The two vowels each pattern is named for.
pub open spec fn pattern_vowels(p: VowelPattern) -> (char, char) {
    match p {
        VowelPattern::Aa => ('a', 'a'),
        VowelPattern::Ai => ('a', 'i'),
        VowelPattern::Ia => ('i', 'a'),
        VowelPattern::Uu => ('u', 'u'),
        VowelPattern::Ui => ('u', 'i'),
        VowelPattern::Au => ('a', 'u'),
    }
}

/// A phrase's first two vowels name the pattern with those vowels,
/// whatever vowels follow; two vowels that name no pattern, or fewer than
/// two vowels, give `Aa`. So distinct patterns come from distinct vowel
/// pairs.
pub proof fn law_vowels_name_their_pattern(p: VowelPattern, x: char, y: char, rest: Seq<char>)
    ensures
        pattern_of_vowels(seq![pattern_vowels(p).0, pattern_vowels(p).1] + rest) == p,
        (forall|q: VowelPattern| pattern_vowels(q) != (x, y)) ==> pattern_of_vowels(seq![x, y] + rest)
            == VowelPattern::Aa,
        pattern_of_vowels(seq![x]) == VowelPattern::Aa,
        pattern_of_vowels(Seq::empty()) == VowelPattern::Aa,
{
    let v = seq![pattern_vowels(p).0, pattern_vowels(p).1] + rest;
    assert(v[0] == pattern_vowels(p).0 && v[1] == pattern_vowels(p).1);
    let u = seq![x, y] + rest;
    assert(u[0] == x && u[1] == y);
    if forall|q: VowelPattern| pattern_vowels(q) != (x, y) {
        assert(pattern_vowels(VowelPattern::Aa) != (x, y));
        assert(pattern_vowels(VowelPattern::Ai) != (x, y));
        assert(pattern_vowels(VowelPattern::Ia) != (x, y));
        assert(pattern_vowels(VowelPattern::Uu) != (x, y));
        assert(pattern_vowels(VowelPattern::Ui) != (x, y));
        assert(pattern_vowels(VowelPattern::Au) != (x, y));
    }
}

} // verus!
