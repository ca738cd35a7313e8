//! Random names for uploads and links, and the search for one that no stored
//! record uses yet.
use rand::rngs::ThreadRng;
use rand::Rng;
use vstd::prelude::*;

verus! {

#[verifier::external_type_specification]
#[verifier::external_body]
pub struct ExThreadRng(ThreadRng);

/// Calls `rand::thread_rng()`: the thread's random number generator.
#[verifier::external_body]
fn thread_rng() -> ThreadRng {
    rand::thread_rng()
}

/// Calls `rng.gen_range(0..bound)`, a random index below `bound`.  The range
/// must not be empty (`gen_range` panics on an empty one); which index comes
/// out is chance, and only its range is stated.
#[verifier::external_body]
fn gen_index(rng: &mut ThreadRng, bound: usize) -> (res: usize)
    requires
        bound > 0,
    ensures
        res < bound,
{
    rng.gen_range(0..bound)
}

/// The characters random names are made of: ASCII letters and digits.
pub open spec fn is_name_char(c: char) -> bool {
    ('a' <= c <= 'z') || ('A' <= c <= 'Z') || ('0' <= c <= '9')
}

/// `s` is a random name of `length` characters.
pub open spec fn is_random_name(s: Seq<char>, length: nat) -> bool {
    &&& s.len() == length
    &&& forall|i: int| 0 <= i < s.len() ==> is_name_char(#[trigger] s[i])
}

/// The alphabet of random names: the lower-case letters, the upper-case
/// letters and the digits, in that order.
pub open spec fn name_alphabet() -> Seq<char> {
    seq![
        'a', 'b', 'c', 'd', 'e', 'f', 'g', 'h', 'i', 'j', 'k', 'l', 'm', 'n', 'o', 'p', 'q', 'r',
        's', 't', 'u', 'v', 'w', 'x', 'y', 'z', 'A', 'B', 'C', 'D', 'E', 'F', 'G', 'H', 'I', 'J',
        'K', 'L', 'M', 'N', 'O', 'P', 'Q', 'R', 'S', 'T', 'U', 'V', 'W', 'X', 'Y', 'Z', '0', '1',
        '2', '3', '4', '5', '6', '7', '8', '9',
    ]
}

/// Every character of the alphabet is a name character.
proof fn lemma_name_alphabet_chars()
    ensures
        name_alphabet().len() == 62,
        forall|k: int| 0 <= k < 62 ==> is_name_char(#[trigger] name_alphabet()[k]),
{
    assert forall|k: int| 0 <= k < 62 implies is_name_char(#[trigger] name_alphabet()[k]) by {
        assert(name_alphabet()[k] == name_alphabet()[k]);
    }
}

/// The position of a name character in the alphabet: `a`–`z` at 0–25,
/// `A`–`Z` at 26–51, `0`–`9` at 52–61.
pub open spec fn alphabet_index(c: char) -> int {
    if 'a' <= c <= 'z' {
        c as int - 'a' as int
    } else if 'A' <= c <= 'Z' {
        c as int - 'A' as int + 26
    } else {
        c as int - '0' as int + 52
    }
}

/// The character code at each position of the alphabet.
proof fn lemma_name_alphabet_codes()
    ensures
        forall|k: int|
            0 <= k < 62 ==> (#[trigger] name_alphabet()[k]) as int == if k < 26 {
                'a' as int + k
            } else if k < 52 {
                'A' as int + (k - 26)
            } else {
                '0' as int + (k - 52)
            },
{
    assert forall|k: int| 0 <= k < 62 implies (#[trigger] name_alphabet()[k]) as int == if k < 26 {
        'a' as int + k
    } else if k < 52 {
        'A' as int + (k - 26)
    } else {
        '0' as int + (k - 52)
    } by {
        assert(name_alphabet()[k] == name_alphabet()[k]);
    }
}

/// The alphabet holds every name character exactly once: the character at
/// each position is found again at that position, and each name character
/// stands at its position.
pub proof fn law_alphabet_is_exact()
    ensures
        name_alphabet().len() == 62,
        forall|k: int| 0 <= k < 62 ==> alphabet_index(#[trigger] name_alphabet()[k]) == k,
        forall|c: char|
            is_name_char(c) ==> 0 <= #[trigger] alphabet_index(c) < 62 && name_alphabet()[alphabet_index(c)]
                == c,
{
    lemma_name_alphabet_codes();
    assert forall|c: char| is_name_char(c) implies 0 <= #[trigger] alphabet_index(c) < 62
        && name_alphabet()[alphabet_index(c)] == c by {
        let k = alphabet_index(c);
        assert(name_alphabet()[k] as int == c as int);
    }
}

/// Every random name can be spelled: the name of `length` letters and
/// digits `s` is what the draws of its characters' positions spell, and
/// draws that spell the same name are the same draws.
pub proof fn law_every_name_can_be_drawn(s: Seq<char>, d1: Seq<usize>, d2: Seq<usize>)
    requires
        is_random_name(s, s.len()),
    ensures
        ({
            let d = Seq::new(s.len(), |i: int| alphabet_index(s[i]) as usize);
            &&& forall|i: int| 0 <= i < d.len() ==> d[i] < 62
            &&& d.map_values(|k: usize| name_alphabet()[k as int]) == s
        }),
        (forall|i: int| 0 <= i < d1.len() ==> d1[i] < 62) && (forall|i: int|
            0 <= i < d2.len() ==> d2[i] < 62) && d1.map_values(|k: usize| name_alphabet()[k as int])
            == d2.map_values(|k: usize| name_alphabet()[k as int]) ==> d1 == d2,
{
    law_alphabet_is_exact();
    let d = Seq::new(s.len(), |i: int| alphabet_index(s[i]) as usize);
    assert forall|i: int| 0 <= i < d.len() implies d[i] < 62 && name_alphabet()[d[i] as int] == s[i] by {
        assert(is_name_char(s[i]));
    }
    assert(d.map_values(|k: usize| name_alphabet()[k as int]) =~= s);
    if (forall|i: int| 0 <= i < d1.len() ==> d1[i] < 62) && (forall|i: int|
        0 <= i < d2.len() ==> d2[i] < 62) && d1.map_values(|k: usize| name_alphabet()[k as int])
        == d2.map_values(|k: usize| name_alphabet()[k as int]) {
        let n1 = d1.map_values(|k: usize| name_alphabet()[k as int]);
        let n2 = d2.map_values(|k: usize| name_alphabet()[k as int]);
        assert(n1.len() == d1.len() && n2.len() == d2.len());
        assert forall|i: int| 0 <= i < d1.len() implies d1[i] == d2[i] by {
            assert(n1[i] == n2[i]);
            assert(alphabet_index(name_alphabet()[d1[i] as int]) == d1[i] as int);
            assert(alphabet_index(name_alphabet()[d2[i] as int]) == d2[i] as int);
        }
        assert(d1 =~= d2);
    }
}

/// The name spelled by the drawn indices: the alphabet's character at each
/// index in turn.
pub fn name_from_draws(draws: &Vec<usize>) -> (res: String)
    requires
        forall|i: int| 0 <= i < draws.len() ==> draws[i] < 62,
    ensures
        res@ == draws@.map_values(|k: usize| name_alphabet()[k as int]),
        is_random_name(res@, draws.len() as nat),
{
    let chars = "abcdefghijklmnopqrstuvwxyzABCDEFGHIJKLMNOPQRSTUVWXYZ0123456789";
    proof {
        reveal_strlit("abcdefghijklmnopqrstuvwxyzABCDEFGHIJKLMNOPQRSTUVWXYZ0123456789");
        assert(chars@ =~= name_alphabet());
        lemma_name_alphabet_chars();
    }
    let mut out = String::new();
    let mut i: usize = 0;
    while i < draws.len()
        invariant
            i <= draws.len(),
            chars@ == name_alphabet(),
            forall|j: int| 0 <= j < draws.len() ==> draws[j] < 62,
            out@ == draws@.take(i as int).map_values(|k: usize| name_alphabet()[k as int]),
        decreases draws.len() - i,
    {
        let k = draws[i];
        let piece = chars.substring_char(k, k + 1);
        proof {
            assert(piece@ =~= seq![chars@[k as int]]);
        }
        out.append(piece);
        proof {
            assert(draws@.take(i + 1) =~= draws@.take(i as int).push(k));
            assert(out@ =~= draws@.take(i + 1).map_values(|k: usize| name_alphabet()[k as int]));
        }
        i = i + 1;
    }
    proof {
        assert(draws@.take(draws.len() as int) =~= draws@);
        assert forall|j: int| 0 <= j < out@.len() implies is_name_char(#[trigger] out@[j]) by {
            assert(out@[j] == name_alphabet()[draws[j] as int]);
        }
    }
    out
}

/// A string of `length` characters, each drawn at random from the ASCII
/// letters and digits: `length` indices are drawn below 62 and spelled with
/// `name_from_draws`.
pub fn generate_random_string(length: usize) -> (res: String)
    ensures
        is_random_name(res@, length as nat),
{
    let mut rng = thread_rng();
    let mut draws: Vec<usize> = Vec::new();
    let mut i: usize = 0;
    while i < length
        invariant
            i <= length,
            draws.len() == i,
            forall|j: int| 0 <= j < draws.len() ==> draws[j] < 62,
        decreases length - i,
    {
        let k = gen_index(&mut rng, 62);
        draws.push(k);
        i = i + 1;
    }
    name_from_draws(&draws)
}

/// The kind of record a generated name is for.
pub enum DBType {
    File,
    Url,
}

/// How many names `name_gen` tries before it gives up.
pub const MAX_NAME_ATTEMPTS: usize = 10;

/// The query that looks a name up among the records of `target`.
pub open spec fn name_query(target: DBType) -> Seq<char> {
    match target {
        DBType::File => "SELECT * FROM files f WHERE f.name = $1"@,
        DBType::Url => "SELECT * FROM url u WHERE u.name = $1"@,
    }
}

/// The query that looks a name up among the records of `target`.
pub fn lookup_query(target: &DBType) -> (res: &'static str)
    ensures
        res@ == name_query(*target),
{
    match target {
        DBType::File => "SELECT * FROM files f WHERE f.name = $1",
        DBType::Url => "SELECT * FROM url u WHERE u.name = $1",
    }
}

/// What follows the random part of a name: nothing, or a dot and `ext`.
pub open spec fn name_suffix(ext: Option<Seq<char>>) -> Seq<char> {
    match ext {
        Some(e) => seq!['.'] + e,
        None => Seq::empty(),
    }
}

/// `name` is a random name of `length` characters followed by the suffix
/// for `ext`.
pub open spec fn is_candidate(name: Seq<char>, length: nat, ext: Option<Seq<char>>) -> bool {
    &&& name.len() >= length
    &&& is_random_name(name.take(length as int), length)
    &&& name.skip(length as int) == name_suffix(ext)
}

/// A fresh random name of `length` characters, with `.ext` appended when an
/// extension is given.
pub fn candidate_name(length: usize, ext: &Option<String>) -> (res: String)
    ensures
        is_candidate(res@, length as nat, ext.deep_view()),
{
    let mut name = generate_random_string(length);
    let ghost random = name@;
    match ext {
        Some(e) => {
            let dot = ".";
            proof {
                reveal_strlit(".");
            }
            name.append(dot);
            name.append(e.as_str());
            proof {
                assert(name@.take(length as int) =~= random);
                assert(name@.skip(length as int) =~= seq!['.'] + e@);
            }
        },
        None => {
            proof {
                assert(name@.take(length as int) =~= random);
                assert(name@.skip(length as int) =~= Seq::<char>::empty());
            }
        },
    }
    name
}

/// What a lookup of a candidate name found.
pub enum NameLookup {
    /// A record already has the name.
    Taken,
    /// No record has the name.
    Free,
    /// The lookup failed; the error's text.
    Failed(String),
}

/// The next step of a name search.
pub enum NameAction {
    /// Look `name` up with `query` and report what was found.
    Check { name: String, query: &'static str },
    /// The search is over: the free name, or why there is none.
    Done(Result<String, String>),
}

/// A search for a name that no record of `target` uses: up to
/// `MAX_NAME_ATTEMPTS` random candidates are looked up in turn, and the first
/// free one is taken.
pub struct NameGen {
    length: usize,
    target: DBType,
    ext: Option<String>,
    attempts: usize,
    candidate: Option<String>,
    found: Option<String>,
}

/// One step of a name search: how the search `new` and the action `res`
/// follow from the search `old` and the report `lookup` on its pending
/// candidate.  A free candidate ends the search and is the name found; a
/// failed lookup ends it with the error; a taken one moves on to the next
/// candidate, or gives up after `MAX_NAME_ATTEMPTS`.
pub open spec fn name_step(old: NameGen, new: NameGen, lookup: NameLookup, res: NameAction) -> bool {
    &&& new.length() == old.length()
    &&& new.target() == old.target()
    &&& new.ext() == old.ext()
    &&& new.attempts() <= MAX_NAME_ATTEMPTS
    &&& lookup is Free ==> {
        &&& res matches NameAction::Done(Ok(n))
        &&& Some(n@) == old.pending()
        &&& is_candidate(n@, old.length(), old.ext())
        &&& new.pending() is None
        &&& new.found() == Some(n@)
    }
    &&& !(lookup is Free) ==> new.found() == old.found()
    &&& lookup matches NameLookup::Failed(e) ==> {
        &&& res matches NameAction::Done(Err(m))
        &&& m@ == e@
        &&& new.pending() is None
    }
    &&& lookup is Taken && old.attempts() < MAX_NAME_ATTEMPTS ==> {
        &&& res matches NameAction::Check { name, query }
        &&& is_candidate(name@, old.length(), old.ext())
        &&& query@ == name_query(old.target())
        &&& new.pending() == Some(name@)
        &&& new.attempts() == old.attempts() + 1
    }
    &&& lookup is Taken && old.attempts() >= MAX_NAME_ATTEMPTS ==> {
        &&& res matches NameAction::Done(Err(m))
        &&& m@ == "Can't generate new unique name!"@
        &&& new.pending() is None
    }
}

impl NameGen {
    #[verifier::type_invariant]
    spec fn inv(self) -> bool {
        &&& self.attempts <= MAX_NAME_ATTEMPTS
        &&& self.candidate matches Some(c) ==> self.attempts >= 1 && is_candidate(
            c@,
            self.length as nat,
            self.ext.deep_view(),
        )
        &&& self.found matches Some(f) ==> is_candidate(
            f@,
            self.length as nat,
            self.ext.deep_view(),
        )
    }

    /// Length of the random part of each candidate.
    pub closed spec fn length(&self) -> nat {
        self.length as nat
    }

    /// Kind of record the name is for.
    pub closed spec fn target(&self) -> DBType {
        self.target
    }

    /// Extension appended to each candidate.
    pub closed spec fn ext(&self) -> Option<Seq<char>> {
        self.ext.deep_view()
    }

    /// How many candidates have been handed out for lookup.
    pub closed spec fn attempts(&self) -> nat {
        self.attempts as nat
    }

    /// The candidate whose lookup is awaited, if any.
    pub closed spec fn pending(&self) -> Option<Seq<char>> {
        self.candidate.deep_view()
    }

    /// The free name the search ended with, if it has.
    pub closed spec fn found(&self) -> Option<Seq<char>> {
        self.found.deep_view()
    }

    /// The free name the search ended with, if it has.
    pub fn found_name(&self) -> (res: Option<String>)
        ensures
            res.deep_view() == self.found(),
            res matches Some(f) ==> is_candidate(f@, self.length(), self.ext()),
    {
        proof {
            use_type_invariant(self);
        }
        match &self.found {
            Some(f) => Some(f.clone()),
            None => None,
        }
    }

    /// Whether a lookup is awaited.
    pub fn is_waiting(&self) -> (res: bool)
        ensures
            res == self.pending() is Some,
    {
        self.candidate.is_some()
    }

    /// Hands out the next candidate, or gives up after `MAX_NAME_ATTEMPTS`.
    fn advance(&mut self) -> (res: NameAction)
        ensures
            final(self).length() == old(self).length(),
            final(self).target() == old(self).target(),
            final(self).ext() == old(self).ext(),
            final(self).found() == old(self).found(),
            old(self).attempts() < MAX_NAME_ATTEMPTS ==> {
                &&& res matches NameAction::Check { name, query }
                &&& is_candidate(name@, old(self).length(), old(self).ext())
                &&& query@ == name_query(old(self).target())
                &&& final(self).pending() == Some(name@)
                &&& final(self).attempts() == old(self).attempts() + 1
            },
            old(self).attempts() >= MAX_NAME_ATTEMPTS ==> {
                &&& res matches NameAction::Done(Err(m))
                &&& m@ == "Can't generate new unique name!"@
                &&& final(self).pending() is None
                &&& final(self).attempts() == old(self).attempts()
            },
    {
        proof {
            use_type_invariant(&*self);
        }
        if self.attempts < MAX_NAME_ATTEMPTS {
            let name = candidate_name(self.length, &self.ext);
            let query = lookup_query(&self.target);
            self.attempts = self.attempts + 1;
            self.candidate = Some(name.clone());
            NameAction::Check { name, query }
        } else {
            self.candidate = None;
            NameAction::Done(Err(String::from_str("Can't generate new unique name!")))
        }
    }

    /// Takes the report of the awaited lookup: a free name ends the search
    /// with it, a failed lookup ends it with the error, and a taken name
    /// moves on to the next candidate.
    pub fn step(&mut self, lookup: NameLookup) -> (res: NameAction)
        requires
            old(self).pending() is Some,
        ensures
            name_step(*old(self), *final(self), lookup, res),
    {
        proof {
            use_type_invariant(&*self);
        }
        match lookup {
            NameLookup::Free => {
                let name = match &self.candidate {
                    Some(n) => n.clone(),
                    None => String::new(),
                };
                self.candidate = None;
                self.found = Some(name.clone());
                NameAction::Done(Ok(name))
            },
            NameLookup::Failed(e) => {
                self.candidate = None;
                NameAction::Done(Err(e))
            },
            NameLookup::Taken => self.advance(),
        }
    }
}

/// Starts the search for a free name of `length` random characters (with
/// `.ext` appended when given) among the records of `target`; the first
/// action is the lookup of the first candidate.
pub fn name_gen(length: usize, target: DBType, ext: Option<String>) -> (res: (NameGen, NameAction))
    ensures
        res.0.length() == length,
        res.0.target() == target,
        res.0.ext() == ext.deep_view(),
        res.0.attempts() == 1,
        res.0.found() is None,
        res.1 matches NameAction::Check { name, query } && is_candidate(
            name@,
            length as nat,
            ext.deep_view(),
        ) && query@ == name_query(target) && res.0.pending() == Some(name@),
{
    let mut gen = NameGen { length, target, ext, attempts: 0, candidate: None, found: None };
    let action = gen.advance();
    (gen, action)
}

} // verus!
