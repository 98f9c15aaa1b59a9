//! Which proof key the service mints tokens with, and how a caller gets it.
//!
//! A token is bound to the proof key advertised when it was minted, so the
//! service and a caller that signs for itself must hold the same key. The
//! service's key is generated once and kept in the keychain. A file named by
//! an environment variable overrides it: three lines of hexadecimal digits,
//! the coordinates x and y of the public key and the secret scalar d.

use crate::hex::{read_hex_pairs, to_hex_lower, HexError};
use crate::key::ProofKey;
use crate::text::filled_line;
use vstd::prelude::*;

verus! {

/// The environment variable that names a file with the key to use.
pub const PROOF_KEY_VAR: &'static str = "XODUS_PROOF_KEY";

/// The keychain entry that holds the key.
pub const PROOF_KEY_ENTRY: &'static str = "proof_key";

/// What keeps the third filled line of a key file from being read.
#[derive(Clone, Copy, Debug, PartialEq, Eq, Structural)]
pub enum HexLineError {
    /// Fewer than three lines are filled.
    Missing,
    /// The line is not made of hexadecimal digits.
    NotHex,
    /// The line cannot be cut after every second byte.
    Misaligned,
}

/// The bytes on the third filled line of a key file.
pub open spec fn hex_line(text: Seq<char>) -> Result<Seq<u8>, HexLineError> {
    match crate::text::nth(crate::text::filled_lines(text), 2) {
        None => Err(HexLineError::Missing),
        Some(line) => match crate::hex::hex_pairs(line) {
            Ok(bytes) => Ok(bytes),
            Err(HexError::NotHex) => Err(HexLineError::NotHex),
            Err(HexError::Misaligned) => Err(HexLineError::Misaligned),
        },
    }
}

/// The scalar that a key file holds.
pub open spec fn key_of_text(text: Seq<char>) -> Option<Seq<u8>> {
    match hex_line(text) {
        Ok(bytes) => crate::key::scalar_of(bytes),
        Err(_) => None,
    }
}

/// The text of a key file with the lines `x`, `y` and `d`.
pub open spec fn key_file(x: Seq<char>, y: Seq<char>, d: Seq<char>) -> Seq<char> {
    x + seq!['\n'] + y + seq!['\n'] + d
}

/// Whether `s` is 64 hexadecimal digits, letters in lower case.
pub open spec fn is_hex64(s: Seq<char>) -> bool {
    &&& s.len() == 64
    &&& forall|i: int| 0 <= i < s.len() ==> crate::hex::is_lower_hex(#[trigger] s[i])
}

/// The bytes on the third filled line of a key file.
pub fn hex_line_bytes(text: &str) -> (r: Result<Vec<u8>, HexLineError>)
    ensures
        match r {
            Ok(bytes) => hex_line(text@) == Ok::<Seq<u8>, HexLineError>(bytes@),
            Err(e) => hex_line(text@) == Err::<Seq<u8>, HexLineError>(e),
        },
{
    match filled_line(text, 2) {
        None => Err(HexLineError::Missing),
        Some(line) => match read_hex_pairs(&line) {
            Ok(bytes) => Ok(bytes),
            Err(HexError::NotHex) => Err(HexLineError::NotHex),
            Err(HexError::Misaligned) => Err(HexLineError::Misaligned),
        },
    }
}

/// The key in a key file, from its third filled line alone: the lines before
/// it are there to be checked by eye. A line that cannot be read gives no key.
pub fn key_from_hex_line(text: &str) -> (r: Option<ProofKey>)
    ensures
        match r {
            Some(key) => key_of_text(text@) == Some(key@),
            None => key_of_text(text@) is None,
        },
{
    match hex_line_bytes(text) {
        Ok(bytes) => ProofKey::from_slice(bytes.as_slice()),
        Err(_) => None,
    }
}

/// What the keychain answered when asked for the secret of an entry.
pub enum SecretAnswer {
    /// The secret that the entry holds.
    Found(Vec<u8>),
    /// The entry holds no secret yet.
    NoEntry,
    /// The keychain could not be read.
    Failed,
}

/// How far the search for the key has come.
pub enum ProofKeyState {
    /// The environment variable is still to be looked up.
    Start,
    /// The file that overrides the keychain is being read.
    ReadingFile,
    /// The keychain entry is being opened.
    OpeningEntry,
    /// The secret of the entry is being read.
    ReadingSecret,
    /// The key, just generated, is being stored.
    Storing(ProofKey),
    /// The search is over.
    Finished,
}

/// What the search learns from outside.
pub enum ProofKeyEvent {
    /// The value of the environment variable, if it is set.
    Override(Option<String>),
    /// The text of the file, if it could be read.
    FileRead(Option<String>),
    /// Whether the keychain entry could be opened.
    EntryOpened(bool),
    /// What the entry holds.
    Secret(SecretAnswer),
    /// Whether the key could be stored.
    Stored(bool),
}

/// What the search asks to be done next.
pub enum ProofKeyAction {
    /// Read the file at this path.
    ReadFile(String),
    /// Open the keychain entry of this name.
    OpenEntry(String),
    /// Read the secret of the entry.
    ReadSecret,
    /// Store these bytes as the secret of the entry.
    StoreSecret(Vec<u8>),
    /// Use this key, or none.
    Finish(Option<ProofKey>),
}

/// Whether `event` is what the search waits for in `state`.
pub open spec fn accepts(state: ProofKeyState, event: ProofKeyEvent) -> bool {
    match (state, event) {
        (ProofKeyState::Start, ProofKeyEvent::Override(_)) => true,
        (ProofKeyState::ReadingFile, ProofKeyEvent::FileRead(_)) => true,
        (ProofKeyState::OpeningEntry, ProofKeyEvent::EntryOpened(_)) => true,
        (ProofKeyState::ReadingSecret, ProofKeyEvent::Secret(_)) => true,
        (ProofKeyState::Storing(_), ProofKeyEvent::Stored(_)) => true,
        _ => false,
    }
}

/// Whether `action` ends the search with the scalar `d`, or with no key.
pub open spec fn finishes_with(action: ProofKeyAction, d: Option<Seq<u8>>) -> bool {
    match (action, d) {
        (ProofKeyAction::Finish(Some(key)), Some(d)) => key@ == d,
        (ProofKeyAction::Finish(None), None) => true,
        _ => false,
    }
}

/// Whether the search, in state `s`, may answer the event `e` by going to the
/// state `t` and asking for `a`. Only a generated key is left open: it is one
/// that `ProofKey::random` can give.
pub open spec fn proof_key_step(
    s: ProofKeyState,
    e: ProofKeyEvent,
    t: ProofKeyState,
    a: ProofKeyAction,
) -> bool {
    match (s, e) {
        (ProofKeyState::Start, ProofKeyEvent::Override(Some(path))) => {
            &&& t is ReadingFile
            &&& a == ProofKeyAction::ReadFile(path)
        },
        (ProofKeyState::Start, ProofKeyEvent::Override(None)) => {
            &&& t is OpeningEntry
            &&& a matches ProofKeyAction::OpenEntry(name)
            &&& name@ == PROOF_KEY_ENTRY@
        },
        (ProofKeyState::ReadingFile, ProofKeyEvent::FileRead(Some(text))) => {
            &&& t is Finished
            &&& finishes_with(a, key_of_text(text@))
        },
        (ProofKeyState::ReadingFile, ProofKeyEvent::FileRead(None)) => {
            &&& t is Finished
            &&& finishes_with(a, None)
        },
        (ProofKeyState::OpeningEntry, ProofKeyEvent::EntryOpened(true)) => {
            &&& t is ReadingSecret
            &&& a is ReadSecret
        },
        (ProofKeyState::OpeningEntry, ProofKeyEvent::EntryOpened(false)) => {
            &&& t is Finished
            &&& finishes_with(a, None)
        },
        (ProofKeyState::ReadingSecret, ProofKeyEvent::Secret(SecretAnswer::Found(bytes))) => {
            &&& t is Finished
            &&& finishes_with(a, crate::key::scalar_of(bytes@))
        },
        (ProofKeyState::ReadingSecret, ProofKeyEvent::Secret(SecretAnswer::NoEntry)) => {
            &&& t matches ProofKeyState::Storing(key)
            &&& call_ensures(ProofKey::random, (), key)
            &&& stores(t, a, key)
        },
        (ProofKeyState::ReadingSecret, ProofKeyEvent::Secret(SecretAnswer::Failed)) => {
            &&& t is Finished
            &&& finishes_with(a, None)
        },
        (ProofKeyState::Storing(key), ProofKeyEvent::Stored(true)) => {
            &&& t is Finished
            &&& a == ProofKeyAction::Finish(Some(key))
        },
        (ProofKeyState::Storing(_), ProofKeyEvent::Stored(false)) => {
            &&& t is Finished
            &&& finishes_with(a, None)
        },
        _ => false,
    }
}

/// Whether `t` and `a` hold on to `key` and ask for its bytes to be stored.
pub open spec fn stores(t: ProofKeyState, a: ProofKeyAction, key: ProofKey) -> bool {
    &&& crate::key::is_scalar(key@)
    &&& t == ProofKeyState::Storing(key)
    &&& a matches ProofKeyAction::StoreSecret(bytes)
    &&& bytes@ == key@
}

/// Where the search stands after an event, and what it asks for.
pub struct ProofKeyStep {
    pub state: ProofKeyState,
    pub action: ProofKeyAction,
}

impl ProofKeyStep {
    /// The end of the search, with this key or none.
    fn finish(key: Option<ProofKey>) -> (r: ProofKeyStep)
        ensures
            r.state is Finished,
            r.action == ProofKeyAction::Finish(key),
    {
        ProofKeyStep { state: ProofKeyState::Finished, action: ProofKeyAction::Finish(key) }
    }
}

/// Goes on with a key that was just generated: it is used once it is stored.
pub fn store_generated(key: ProofKey) -> (r: ProofKeyStep)
    ensures
        stores(r.state, r.action, key),
{
    let bytes = key.to_bytes();
    ProofKeyStep {
        state: ProofKeyState::Storing(key),
        action: ProofKeyAction::StoreSecret(bytes),
    }
}

/// The proof key the service mints tokens with, one step of the search at a
/// time. It starts in `ProofKeyState::Start` with the value of the environment
/// variable `PROOF_KEY_VAR`, and is over with `ProofKeyAction::Finish`.
pub fn service_proof_key(state: ProofKeyState, event: ProofKeyEvent) -> (r: ProofKeyStep)
    requires
        accepts(state, event),
    ensures
        proof_key_step(state, event, r.state, r.action),
{
    match (state, event) {
        (ProofKeyState::Start, ProofKeyEvent::Override(Some(path))) => ProofKeyStep {
            state: ProofKeyState::ReadingFile,
            action: ProofKeyAction::ReadFile(path),
        },
        (ProofKeyState::Start, ProofKeyEvent::Override(None)) => ProofKeyStep {
            state: ProofKeyState::OpeningEntry,
            action: ProofKeyAction::OpenEntry(PROOF_KEY_ENTRY.to_owned()),
        },
        (ProofKeyState::ReadingFile, ProofKeyEvent::FileRead(Some(text))) => {
            ProofKeyStep::finish(key_from_hex_line(text.as_str()))
        },
        (ProofKeyState::OpeningEntry, ProofKeyEvent::EntryOpened(true)) => ProofKeyStep {
            state: ProofKeyState::ReadingSecret,
            action: ProofKeyAction::ReadSecret,
        },
        (ProofKeyState::ReadingSecret, ProofKeyEvent::Secret(SecretAnswer::Found(bytes))) => {
            ProofKeyStep::finish(ProofKey::from_slice(bytes.as_slice()))
        },
        (ProofKeyState::ReadingSecret, ProofKeyEvent::Secret(SecretAnswer::NoEntry)) => {
            store_generated(ProofKey::random())
        },
        (ProofKeyState::Storing(key), ProofKeyEvent::Stored(true)) => {
            ProofKeyStep::finish(Some(key))
        },
        _ => ProofKeyStep::finish(None),
    }
}

/// The three lines of the key file for coordinates `x` and `y` and a scalar
/// `d`, if both coordinates are there.
pub fn hex_xyd(x: Option<Vec<u8>>, y: Option<Vec<u8>>, d: &[u8]) -> (r: Option<
    (String, String, String),
>)
    ensures
        r is Some <==> x is Some && y is Some,
        r matches Some((sx, sy, sd)) ==> {
            &&& sx@ == crate::hex::hex_lower(x->0@)
            &&& sy@ == crate::hex::hex_lower(y->0@)
            &&& sd@ == crate::hex::hex_lower(d@)
        },
{
    match (x, y) {
        (Some(x), Some(y)) => Some(
            (to_hex_lower(x.as_slice()), to_hex_lower(y.as_slice()), to_hex_lower(d)),
        ),
        _ => None,
    }
}

/// Whether `x`, `y` and `d` describe the key with the scalar `key`: 64
/// hexadecimal digits each, for the coordinates of its public key and for its
/// scalar, and the lines of a key file that holds it.
pub open spec fn describes(x: Seq<char>, y: Seq<char>, d: Seq<char>, key: Seq<u8>) -> bool {
    &&& x == crate::hex::hex_lower(crate::key::public_point(key).0)
    &&& y == crate::hex::hex_lower(crate::key::public_point(key).1)
    &&& d == crate::hex::hex_lower(key)
    &&& is_hex64(x)
    &&& is_hex64(y)
    &&& is_hex64(d)
    &&& key_of_text(key_file(x, y, d)) == Some(key)
}

/// The key that the search ended with as x, y and d, each in 64 hexadecimal
/// digits, so that a caller can import it whole. The three are the lines of a
/// key file that holds the same key.
pub fn service_proof_key_xyd(key: Option<ProofKey>) -> (r: Option<(String, String, String)>)
    ensures
        r is Some <==> key is Some,
        r matches Some((x, y, d)) ==> describes(x@, y@, d@, key->0@),
{
    match key {
        Some(key) => {
            let (x, y) = key.public_point();
            let d = key.to_bytes();
            proof {
                let point = crate::key::public_point(key@);
                crate::hex::law_hex_lower_form(point.0);
                crate::hex::law_hex_lower_form(point.1);
                crate::hex::law_hex_lower_form(key@);
                let sx = crate::hex::hex_lower(point.0);
                let sy = crate::hex::hex_lower(point.1);
                let sd = crate::hex::hex_lower(key@);
                lemma_hex_line_is_filled(point.0);
                lemma_hex_line_is_filled(point.1);
                law_key_file_reads_back(sx, sy, key@, Seq::empty());
                assert(key_file(sx, sy, sd) + Seq::<char>::empty() =~= key_file(sx, sy, sd));
            }
            hex_xyd(x, y, d.as_slice())
        },
        None => None,
    }
}

/// Whether `s` is one line that is not blank.
pub open spec fn is_filled_line(s: Seq<char>) -> bool {
    &&& crate::text::trim(s).len() > 0
    &&& forall|i: int| 0 <= i < s.len() ==> s[i] != '\n'
}

/// The text of one byte or more is one line, not blank, that trimming keeps.
proof fn lemma_hex_line_is_filled(bytes: Seq<u8>)
    requires
        bytes.len() > 0,
    ensures
        is_filled_line(crate::hex::hex_lower(bytes)),
        crate::text::trim(crate::hex::hex_lower(bytes)) == crate::hex::hex_lower(bytes),
{
    let s = crate::hex::hex_lower(bytes);
    crate::hex::law_hex_lower_form(bytes);
    assert(crate::hex::is_lower_hex(s[0]));
    assert(crate::hex::is_lower_hex(s[s.len() - 1]));
    crate::text::lemma_trim_fixed(s);
    assert forall|i: int| 0 <= i < s.len() implies s[i] != '\n' by {
        assert(crate::hex::is_lower_hex(s[i]));
    }
}

/// A key file gives back the scalar it was written for: of any two lines that
/// are not blank, the hexadecimal digits of a scalar on a third, and anything
/// behind that line, only the third line counts.
pub proof fn law_key_file_reads_back(
    x: Seq<char>,
    y: Seq<char>,
    d: Seq<u8>,
    behind: Seq<char>,
)
    requires
        is_filled_line(x),
        is_filled_line(y),
        crate::key::is_scalar(d),
        behind.len() == 0 || behind[0] == '\n',
    ensures
        key_of_text(key_file(x, y, crate::hex::hex_lower(d)) + behind) == Some(d),
{
    let s = crate::hex::hex_lower(d);
    let text = key_file(x, y, s) + behind;
    let t1 = y + seq!['\n'] + s + behind;
    let t2 = s + behind;
    lemma_hex_line_is_filled(d);
    assert(text =~= x + (seq!['\n'] + t1));
    assert(t1 =~= y + (seq!['\n'] + t2));
    crate::text::lemma_first_filled_line(x, seq!['\n'] + t1);
    crate::text::lemma_first_filled_line(y, seq!['\n'] + t2);
    crate::text::lemma_first_filled_line(s, behind);
    assert((seq!['\n'] + t1).skip(1) =~= t1);
    assert((seq!['\n'] + t2).skip(1) =~= t2);
    crate::hex::law_hex_round_trip(d);
    crate::key::law_scalar_is_fixed(d);
}

/// The record of one search: its states, the events it learned and the actions
/// it asked for.
pub struct Search {
    pub states: Seq<ProofKeyState>,
    pub events: Seq<ProofKeyEvent>,
    pub actions: Seq<ProofKeyAction>,
}

impl Search {
    /// Whether the event at `i` is answered by the next state and the action
    /// at `i`.
    pub open spec fn steps(self, i: int) -> bool {
        proof_key_step(self.states[i], self.events[i], self.states[i + 1], self.actions[i])
    }

    /// Whether the record runs from the start of a search, every event
    /// answered.
    pub open spec fn valid(self) -> bool {
        &&& self.states.len() == self.events.len() + 1
        &&& self.actions.len() == self.events.len()
        &&& self.states[0] is Start
        &&& forall|i: int| 0 <= i < self.events.len() ==> #[trigger] self.steps(i)
    }

    /// Whether the search is over, with this key.
    pub open spec fn ends_with(self, key: Option<ProofKey>) -> bool {
        &&& self.actions.len() > 0
        &&& self.actions.last() == ProofKeyAction::Finish(key)
    }
}

/// What a keychain entry holds.
pub enum EntryContents {
    /// A secret.
    Secret(Seq<u8>),
    /// Nothing yet.
    Vacant,
    /// Something that cannot be read.
    Unreadable,
}

/// What a search can find outside.
pub struct Surroundings {
    /// The value of the environment variable, if it is set.
    pub path: Option<Seq<char>>,
    /// The text of the file it names, if that can be read.
    pub file: Option<Seq<char>>,
    /// Whether the keychain entry can be opened.
    pub opens: bool,
    /// What the entry holds.
    pub entry: EntryContents,
}

impl Surroundings {
    /// Whether a search in these surroundings can learn `event`. Whether
    /// storing a key succeeds is left open.
    pub open spec fn gives(self, event: ProofKeyEvent) -> bool {
        match event {
            ProofKeyEvent::Override(Some(path)) => self.path == Some(path@),
            ProofKeyEvent::Override(None) => self.path is None,
            ProofKeyEvent::FileRead(Some(text)) => self.file == Some(text@),
            ProofKeyEvent::FileRead(None) => self.file is None,
            ProofKeyEvent::EntryOpened(opened) => self.opens == opened,
            ProofKeyEvent::Secret(SecretAnswer::Found(bytes)) => self.entry
                == EntryContents::Secret(bytes@),
            ProofKeyEvent::Secret(SecretAnswer::NoEntry) => self.entry is Vacant,
            ProofKeyEvent::Secret(SecretAnswer::Failed) => self.entry is Unreadable,
            ProofKeyEvent::Stored(_) => true,
        }
    }

    /// Whether `search` is one in these surroundings.
    pub open spec fn hold(self, search: Search) -> bool {
        &&& search.valid()
        &&& forall|i: int| 0 <= i < search.events.len() ==> self.gives(#[trigger] search.events[i])
    }

    /// The surroundings that `search` leaves: the entry holds the bytes that
    /// were stored, if any were, and all else is unchanged.
    pub open spec fn after(self, search: Search) -> Surroundings {
        let n = search.events.len() as int;
        if n >= 2 && search.events[n - 1] == ProofKeyEvent::Stored(true)
            && search.actions[n - 2] is StoreSecret {
            Surroundings {
                entry: EntryContents::Secret(search.actions[n - 2]->StoreSecret_0@),
                ..self
            }
        } else {
            self
        }
    }
}

/// A search is over after four events at the latest.
pub proof fn law_search_ends(search: Search)
    requires
        search.valid(),
    ensures
        search.events.len() <= 4,
{
    if search.events.len() > 4 {
        assert(search.steps(0));
        assert(search.steps(1));
        assert(search.steps(2));
        assert(search.steps(3));
        assert(search.steps(4));
    }
}

/// Where the environment variable names a file, that file decides, whatever its
/// text: the key is the one in the file, or none, and the keychain is neither
/// opened, nor read, nor written.
pub proof fn law_override_decides(search: Search, i: int)
    requires
        search.valid(),
        0 <= i < search.actions.len(),
        search.events[0] matches ProofKeyEvent::Override(Some(_)),
    ensures
        search.actions[i] is ReadFile || search.actions[i] is Finish,
        search.actions[i] is Finish ==> (search.events[i] matches ProofKeyEvent::FileRead(text)
            && finishes_with(
            search.actions[i],
            match text {
                Some(text) => key_of_text(text@),
                None => None,
            },
        )),
{
    assert(search.steps(0));
    if i > 0 {
        assert(search.steps(1));
    }
    if i > 1 {
        assert(search.steps(2));
    }
}

/// A search never ends with anything but a scalar of the group.
pub proof fn law_keys_are_scalars(search: Search, i: int)
    requires
        search.valid(),
        0 <= i < search.actions.len(),
    ensures
        search.actions[i] matches ProofKeyAction::Finish(Some(key)) ==> crate::key::is_scalar(
            key@,
        ),
{
    assert(search.steps(i));
    if i > 0 {
        assert(search.steps(i - 1));
    }
}

/// The key is generated once and kept: when a search has stored a key and ended
/// with it, a later search that finds the stored bytes ends with the same key.
pub proof fn law_generated_key_is_kept(search: Search, i: int, later: Search, j: int)
    requires
        search.valid(),
        later.valid(),
        0 <= i < search.actions.len() - 1,
        0 <= j < later.actions.len(),
        search.actions[i] is StoreSecret,
        search.actions[i + 1] matches ProofKeyAction::Finish(Some(_)),
        later.events[j] matches ProofKeyEvent::Secret(SecretAnswer::Found(bytes)) && bytes@
            == search.actions[i]->StoreSecret_0@,
    ensures
        finishes_with(later.actions[j], Some(search.actions[i + 1]->Finish_0->0@)),
{
    assert(search.steps(i));
    assert(search.steps(i + 1));
    assert(later.steps(j));
    crate::key::law_scalar_is_fixed(search.actions[i]->StoreSecret_0@);
}

/// Two searches cannot disagree: when one has ended with a key, be it from the
/// file, found in the keychain or generated, and nothing but that search has
/// changed the surroundings, another that is over has ended with the same key.
pub proof fn law_searches_agree(
    around: Surroundings,
    search: Search,
    key: ProofKey,
    later: Search,
    later_key: Option<ProofKey>,
)
    requires
        around.hold(search),
        search.ends_with(Some(key)),
        around.after(search).hold(later),
        later.ends_with(later_key),
    ensures
        later_key matches Some(other) && other@ == key@,
{
    lemma_end_of_search(around, search, Some(key));
    lemma_end_of_search(around.after(search), later, later_key);
    if around.path is None && around.opens && around.entry is Vacant {
        crate::key::law_scalar_is_fixed(key@);
    }
}

/// How a search that is over has ended, by what its surroundings hold.
proof fn lemma_end_of_search(around: Surroundings, search: Search, key: Option<ProofKey>)
    requires
        around.hold(search),
        search.ends_with(key),
    ensures
        ({
            let end = ProofKeyAction::Finish(key);
            if around.path is Some {
                &&& around.after(search) == around
                &&& finishes_with(
                    end,
                    match around.file {
                        Some(text) => key_of_text(text),
                        None => None,
                    },
                )
            } else if !around.opens {
                finishes_with(end, None)
            } else {
                match around.entry {
                    EntryContents::Secret(bytes) => {
                        &&& around.after(search) == around
                        &&& finishes_with(end, crate::key::scalar_of(bytes))
                    },
                    EntryContents::Vacant => key matches Some(key) ==> {
                        &&& crate::key::is_scalar(key@)
                        &&& around.after(search) == (Surroundings {
                            entry: EntryContents::Secret(key@),
                            ..around
                        })
                    },
                    EntryContents::Unreadable => finishes_with(end, None),
                }
            }
        }),
{
    law_search_ends(search);
    let n = search.events.len();
    assert(search.steps(0));
    assert(around.gives(search.events[0]));
    assert(search.steps(1));
    assert(around.gives(search.events[1]));
    if n > 2 {
        assert(search.steps(2));
        assert(around.gives(search.events[2]));
    }
    if n > 3 {
        assert(search.steps(3));
        assert(around.gives(search.events[3]));
    }
}

/// What the third filled line writes is all that a key file says: behind two
/// filled lines, a line that is not blank is read as it stands without the
/// white space around it, whatever comes behind it.
pub proof fn law_third_line_decides(before: Seq<char>, line: Seq<char>, behind: Seq<char>)
    requires
        crate::text::filled_lines(before).len() == 2,
        crate::text::no_break(line),
        !crate::text::all_white(line),
        behind.len() == 0 || behind[0] == '\n',
    ensures
        ({
            let text = before + seq!['\n'] + line + behind;
            match crate::hex::hex_pairs(crate::text::trim(line)) {
                Ok(bytes) => hex_line(text) == Ok::<Seq<u8>, HexLineError>(bytes) && key_of_text(
                    text,
                ) == crate::key::scalar_of(bytes),
                Err(HexError::NotHex) => hex_line(text) == Err::<Seq<u8>, HexLineError>(
                    HexLineError::NotHex,
                ) && key_of_text(text) is None,
                Err(HexError::Misaligned) => hex_line(text) == Err::<Seq<u8>, HexLineError>(
                    HexLineError::Misaligned,
                ) && key_of_text(text) is None,
            }
        }),
{
    let text = before + seq!['\n'] + line + behind;
    crate::text::law_filled(line);
    crate::text::law_one_line(line);
    crate::text::law_lines_of_two_texts(before, line);
    if behind.len() > 0 {
        let rest = behind.skip(1);
        crate::text::law_lines_of_two_texts(before + seq!['\n'] + line, rest);
        assert(text =~= before + seq!['\n'] + line + seq!['\n'] + rest);
    } else {
        assert(text =~= before + seq!['\n'] + line);
    }
    assert(crate::text::filled_lines(text)[2] == crate::text::trim(line));
}

/// A text with fewer than three filled lines holds no key.
pub proof fn law_too_few_lines(text: Seq<char>)
    requires
        crate::text::filled_lines(text).len() < 3,
    ensures
        hex_line(text) == Err::<Seq<u8>, HexLineError>(HexLineError::Missing),
        key_of_text(text) is None,
{
}

/// The key in a file is the number on its third filled line: with digits alone
/// on that line, and white space around them, there is a key exactly where the
/// digits come in pairs, make up 24 to 32 bytes and write a number above zero
/// and below the order of the group. The key is that number in 32 bytes.
pub proof fn law_key_is_the_number_on_the_line(
    before: Seq<char>,
    a: Seq<char>,
    digits: Seq<char>,
    b: Seq<char>,
    behind: Seq<char>,
)
    requires
        crate::text::filled_lines(before).len() == 2,
        crate::text::all_white(a),
        crate::text::all_white(b),
        crate::text::no_break(a),
        crate::text::no_break(b),
        digits.len() > 0,
        forall|i: int| 0 <= i < digits.len() ==> crate::hex::is_sixteenth(#[trigger] digits[i]),
        behind.len() == 0 || behind[0] == '\n',
    ensures
        ({
            let key = key_of_text(before + seq!['\n'] + (a + digits + b) + behind);
            let number = crate::hex::hex_number(digits);
            &&& key is Some <==> digits.len() % 2 == 0 && 48 <= digits.len() <= 64 && 0 < number
                < 0xffffffff00000000ffffffffffffffffbce6faada7179e84f3b9cac2fc632551int
            &&& key matches Some(d) ==> d.len() == 32 && crate::key::big_endian(d) == number
        }),
{
    let line = a + digits + b;
    assert(line[a.len() as int] == digits[0]);
    assert(crate::hex::is_sixteenth(digits[0]));
    assert(crate::hex::is_sixteenth(digits[digits.len() - 1]));
    assert forall|i: int| 0 <= i < line.len() implies #[trigger] line[i] != '\n' by {
        if i < a.len() {
            assert(line[i] == a[i]);
        } else if i < a.len() + digits.len() {
            assert(line[i] == digits[i - a.len()]);
            assert(crate::hex::is_sixteenth(digits[i - a.len()]));
        } else {
            assert(line[i] == b[i - a.len() - digits.len()]);
        }
    }
    crate::text::law_trim_takes_the_white_space_around(a, digits, b);
    law_third_line_decides(before, line, behind);
    crate::hex::law_hex_pairs_meaning(digits);
    assert forall|k: int| 0 <= k < digits.len() / 2 implies #[trigger] crate::hex::pair_reads(
        digits,
        k,
    ) by {
        assert(crate::hex::is_sixteenth(digits[2 * k]));
        assert(crate::hex::is_sixteenth(digits[2 * k + 1]));
    }
    assert forall|i: int| 0 <= i < digits.len() implies #[trigger] digits[i] != '+' by {
        assert(crate::hex::is_sixteenth(digits[i]));
    }
    crate::hex::law_reading_keeps_the_number(digits);
    if let Ok(bytes) = crate::hex::hex_pairs(digits) {
        crate::key::law_scalar_keeps_the_number(bytes);
    }
}

/// White space around the digits of a scalar on the third line of a key file
/// makes no difference to the key: so a file whose lines end in a carriage
/// return and a line break reads as one whose lines end in a line break.
pub proof fn law_white_space_around_a_key(
    x: Seq<char>,
    y: Seq<char>,
    a: Seq<char>,
    d: Seq<u8>,
    b: Seq<char>,
    behind: Seq<char>,
)
    requires
        crate::text::no_break(x),
        crate::text::no_break(y),
        !crate::text::all_white(x),
        !crate::text::all_white(y),
        crate::text::all_white(a),
        crate::text::all_white(b),
        crate::text::no_break(a),
        crate::text::no_break(b),
        crate::key::is_scalar(d),
        behind.len() == 0 || behind[0] == '\n',
    ensures
        key_of_text(
            x + seq!['\n'] + y + seq!['\n'] + (a + crate::hex::hex_lower(d) + b) + behind,
        ) == Some(d),
{
    let before = x + seq!['\n'] + y;
    let digits = crate::hex::hex_lower(d);
    let line = a + digits + b;
    crate::text::law_filled(x);
    crate::text::law_filled(y);
    crate::text::law_one_line(x);
    crate::text::law_one_line(y);
    crate::text::law_lines_of_two_texts(x, y);
    crate::hex::law_hex_lower_form(d);
    assert(crate::hex::is_lower_hex(digits[0]));
    assert(crate::hex::is_lower_hex(digits[digits.len() - 1]));
    assert(line[a.len() as int] == digits[0]);
    assert forall|i: int| 0 <= i < line.len() implies #[trigger] line[i] != '\n' by {
        if i < a.len() {
            assert(line[i] == a[i]);
        } else if i < a.len() + digits.len() {
            assert(line[i] == digits[i - a.len()]);
            assert(crate::hex::is_lower_hex(digits[i - a.len()]));
        } else {
            assert(line[i] == b[i - a.len() - digits.len()]);
        }
    }
    crate::text::law_trim_takes_the_white_space_around(a, digits, b);
    law_third_line_decides(before, line, behind);
    crate::hex::law_hex_round_trip(d);
    crate::key::law_scalar_is_fixed(d);
}

/// A file whose lines end in a carriage return and a line break says what the
/// same file says without the carriage returns, whether that is a key or none.
pub proof fn law_carriage_returns_in_a_key_file(
    x: Seq<char>,
    y: Seq<char>,
    z: Seq<char>,
    behind: Seq<char>,
)
    requires
        crate::text::no_break(x),
        crate::text::no_break(y),
        crate::text::no_break(z),
    ensures
        key_of_text(x + seq!['\r', '\n'] + y + seq!['\r', '\n'] + z + seq!['\r', '\n'] + behind)
            == key_of_text(x + seq!['\n'] + y + seq!['\n'] + z + seq!['\n'] + behind),
        hex_line(x + seq!['\r', '\n'] + y + seq!['\r', '\n'] + z + seq!['\r', '\n'] + behind)
            == hex_line(x + seq!['\n'] + y + seq!['\n'] + z + seq!['\n'] + behind),
{
    let n = seq!['\n'];
    let r = seq!['\r'];
    let rn = seq!['\r', '\n'];
    let text = x + n + y + n + z + n + behind;
    let t1 = (x + r) + n + y + n + z + n + behind;
    let t2 = (x + r) + n + (y + r) + n + z + n + behind;
    let t3 = (x + r) + n + (y + r) + n + (z + r) + n + behind;
    crate::text::law_carriage_return(Seq::empty(), x, y + n + z + n + behind);
    assert(text =~= x + n + (y + n + z + n + behind));
    assert(t1 =~= x + r + n + (y + n + z + n + behind));
    crate::text::law_carriage_return(x + r, y, z + n + behind);
    assert(t1 =~= (x + r) + n + y + n + (z + n + behind));
    assert(t2 =~= (x + r) + n + (y + r) + n + (z + n + behind));
    crate::text::law_carriage_return((x + r) + n + (y + r), z, behind);
    assert(t3 =~= x + rn + y + rn + z + rn + behind);
}

/// Whether `s` is `n` digits in base sixteen, none of them a large letter.
pub open spec fn is_small_hex(s: Seq<char>, n: nat) -> bool {
    &&& s.len() == n
    &&& forall|i: int| 0 <= i < s.len() ==> '0' <= #[trigger] s[i] <= '9' || 'a' <= s[i] <= 'f'
}

proof fn lemma_small_hex(s: Seq<char>)
    requires
        is_hex64(s),
    ensures
        is_small_hex(s, 64),
{
    assert forall|i: int| 0 <= i < s.len() implies '0' <= #[trigger] s[i] <= '9' || 'a' <= s[i]
        <= 'f' by {
        assert(crate::hex::is_lower_hex(s[i]));
    }
}

/// `key_from_hex_line` finds in what `service_proof_key_xyd` wrote, joined as
/// three lines, the key that it wrote. Each line is 64 digits, letters small:
/// those of the coordinates x and y of the public key, and of the scalar.
pub proof fn law_written_key_is_read(
    key: Option<ProofKey>,
    written: Option<(String, String, String)>,
    text: &str,
    r: Option<ProofKey>,
)
    requires
        call_ensures(service_proof_key_xyd, (key,), written),
        written matches Some((x, y, d)) && text@ == x@ + seq!['\n'] + y@ + seq!['\n'] + d@,
        call_ensures(key_from_hex_line, (text,), r),
    ensures
        key matches Some(own) && (r matches Some(read) && read@ == own@),
        crate::hex::hex_pairs((written->0).0@) == Ok::<Seq<u8>, HexError>(
            crate::key::public_point(key->0@).0,
        ),
        crate::hex::hex_pairs((written->0).1@) == Ok::<Seq<u8>, HexError>(
            crate::key::public_point(key->0@).1,
        ),
        crate::hex::hex_pairs((written->0).2@) == Ok::<Seq<u8>, HexError>(key->0@),
        crate::hex::hex_number((written->0).2@) == crate::key::big_endian(key->0@),
        is_small_hex((written->0).0@, 64),
        is_small_hex((written->0).1@, 64),
        is_small_hex((written->0).2@, 64),
{
    let d = key->0@;
    let point = crate::key::public_point(d);
    crate::hex::law_hex_round_trip(point.0);
    crate::hex::law_hex_round_trip(point.1);
    crate::hex::law_hex_round_trip(d);
    crate::hex::law_hex_keeps_the_number(d);
    lemma_small_hex((written->0).0@);
    lemma_small_hex((written->0).1@);
    lemma_small_hex((written->0).2@);
}

/// `service_proof_key_xyd` writes nothing exactly where there is no key, and
/// two keys that differ are never written alike.
pub proof fn law_keys_are_told_apart(
    one: Option<ProofKey>,
    one_written: Option<(String, String, String)>,
    other: Option<ProofKey>,
    other_written: Option<(String, String, String)>,
)
    requires
        call_ensures(service_proof_key_xyd, (one,), one_written),
        call_ensures(service_proof_key_xyd, (other,), other_written),
    ensures
        one is None <==> one_written is None,
        one is Some && other is Some && (one_written->0).2@ == (other_written->0).2@ ==> one->0@
            == other->0@,
{
    if one is Some && other is Some {
        crate::hex::law_hex_round_trip(one->0@);
        crate::hex::law_hex_round_trip(other->0@);
    }
}

proof fn lemma_hex_lower_is_small(bytes: Seq<u8>)
    ensures
        is_small_hex(crate::hex::hex_lower(bytes), 2 * bytes.len()),
{
    let s = crate::hex::hex_lower(bytes);
    crate::hex::law_hex_lower_form(bytes);
    assert forall|i: int| 0 <= i < s.len() implies '0' <= #[trigger] s[i] <= '9' || 'a' <= s[i]
        <= 'f' by {
        assert(crate::hex::is_lower_hex(s[i]));
    }
}

/// `hex_xyd` writes the coordinates and the scalar it is given, in that order,
/// and nothing where a coordinate is missing.
pub proof fn law_hex_xyd(
    x: Option<Vec<u8>>,
    y: Option<Vec<u8>>,
    d: &[u8],
    r: Option<(String, String, String)>,
)
    requires
        call_ensures(hex_xyd, (x, y, d), r),
    ensures
        r is Some <==> x is Some && y is Some,
        r matches Some((sx, sy, sd)) ==> {
            &&& crate::hex::hex_pairs(sx@) == Ok::<Seq<u8>, HexError>(x->0@)
            &&& crate::hex::hex_pairs(sy@) == Ok::<Seq<u8>, HexError>(y->0@)
            &&& crate::hex::hex_pairs(sd@) == Ok::<Seq<u8>, HexError>(d@)
            &&& is_small_hex(sx@, 2 * x->0@.len())
            &&& is_small_hex(sy@, 2 * y->0@.len())
            &&& is_small_hex(sd@, 2 * d@.len())
        },
{
    if r is Some {
        lemma_hex_lower_is_small(x->0@);
        lemma_hex_lower_is_small(y->0@);
        lemma_hex_lower_is_small(d@);
        crate::hex::law_hex_round_trip(x->0@);
        crate::hex::law_hex_round_trip(y->0@);
        crate::hex::law_hex_round_trip(d@);
    }
}

/// `hex_line_bytes` and `key_from_hex_line` read the same third line of a text
/// with digits alone on it: the bytes write the number on the line, and so does
/// the key, where there is one.
pub proof fn law_readings_agree(
    before: Seq<char>,
    a: Seq<char>,
    digits: Seq<char>,
    b: Seq<char>,
    behind: Seq<char>,
    text: &str,
    bytes: Result<Vec<u8>, HexLineError>,
    key: Option<ProofKey>,
)
    requires
        crate::text::filled_lines(before).len() == 2,
        crate::text::all_white(a),
        crate::text::all_white(b),
        crate::text::no_break(a),
        crate::text::no_break(b),
        digits.len() > 0,
        digits.len() % 2 == 0,
        forall|i: int| 0 <= i < digits.len() ==> crate::hex::is_sixteenth(#[trigger] digits[i]),
        behind.len() == 0 || behind[0] == '\n',
        text@ == before + seq!['\n'] + (a + digits + b) + behind,
        call_ensures(hex_line_bytes, (text,), bytes),
        call_ensures(key_from_hex_line, (text,), key),
    ensures
        bytes matches Ok(read) && 2 * read@.len() == digits.len() && crate::key::big_endian(read@)
            == crate::hex::hex_number(digits),
        key is Some <==> 48 <= digits.len() <= 64 && 0 < crate::hex::hex_number(digits)
            < 0xffffffff00000000ffffffffffffffffbce6faada7179e84f3b9cac2fc632551int,
        key matches Some(found) ==> crate::key::big_endian(found@) == crate::hex::hex_number(
            digits,
        ) && found@.len() == 32,
{
    law_key_is_the_number_on_the_line(before, a, digits, b, behind);
    let line = a + digits + b;
    assert(line[a.len() as int] == digits[0]);
    assert(crate::hex::is_sixteenth(digits[0]));
    assert(crate::hex::is_sixteenth(digits[digits.len() - 1]));
    assert forall|i: int| 0 <= i < line.len() implies #[trigger] line[i] != '\n' by {
        if i < a.len() {
            assert(line[i] == a[i]);
        } else if i < a.len() + digits.len() {
            assert(line[i] == digits[i - a.len()]);
            assert(crate::hex::is_sixteenth(digits[i - a.len()]));
        } else {
            assert(line[i] == b[i - a.len() - digits.len()]);
        }
    }
    crate::text::law_trim_takes_the_white_space_around(a, digits, b);
    law_third_line_decides(before, line, behind);
    crate::hex::law_hex_pairs_meaning(digits);
    assert forall|k: int| 0 <= k < digits.len() / 2 implies #[trigger] crate::hex::pair_reads(
        digits,
        k,
    ) by {
        assert(crate::hex::is_sixteenth(digits[2 * k]));
        assert(crate::hex::is_sixteenth(digits[2 * k + 1]));
    }
    assert forall|i: int| 0 <= i < digits.len() implies #[trigger] digits[i] != '+' by {
        assert(crate::hex::is_sixteenth(digits[i]));
    }
    crate::hex::law_reading_keeps_the_number(digits);
}

/// `hex_line_bytes` tells a missing line from one that cannot be read, and
/// `key_from_hex_line` finds a key exactly where the bytes are 24 to 32 and write
/// a number above zero and below the order of the group: that number.
pub proof fn law_bytes_and_key_agree(
    text: &str,
    bytes: Result<Vec<u8>, HexLineError>,
    key: Option<ProofKey>,
)
    requires
        call_ensures(hex_line_bytes, (text,), bytes),
        call_ensures(key_from_hex_line, (text,), key),
    ensures
        bytes == Err::<Vec<u8>, HexLineError>(HexLineError::Missing) <==> crate::text::filled_lines(
            text@,
        ).len() < 3,
        bytes is Err ==> key is None,
        bytes matches Ok(read) ==> (key is Some <==> 24 <= read@.len() <= 32 && 0
            < crate::key::big_endian(read@)
            < 0xffffffff00000000ffffffffffffffffbce6faada7179e84f3b9cac2fc632551int),
        bytes matches Ok(read) ==> (key matches Some(found) ==> crate::key::big_endian(found@)
            == crate::key::big_endian(read@) && found@.len() == 32),
{
    if let Ok(read) = bytes {
        crate::key::law_scalar_keeps_the_number(read@);
    }
}

/// The file that a search reads is the one that the environment variable names,
/// and a search reads a file wherever the variable names one.
pub proof fn law_named_file_is_read(search: Search, i: int)
    requires
        search.valid(),
        0 <= i < search.actions.len(),
    ensures
        search.actions[i] matches ProofKeyAction::ReadFile(p) ==> (
        search.events[i] matches ProofKeyEvent::Override(Some(path)) && p@ == path@),
        search.events[i] matches ProofKeyEvent::Override(Some(path)) ==> (
        search.actions[i] matches ProofKeyAction::ReadFile(p) && p@ == path@),
{
    assert(search.steps(i));
}

/// The keychain entry that a search opens is always the one called `proof_key`,
/// and a search opens it exactly where the environment variable is not set. Its
/// secret is read exactly where it could be opened.
pub proof fn law_one_entry_is_opened(search: Search, i: int)
    requires
        search.valid(),
        0 <= i < search.actions.len(),
    ensures
        search.actions[i] is OpenEntry <==> search.events[i] == ProofKeyEvent::Override(None),
        search.actions[i] matches ProofKeyAction::OpenEntry(name) ==> name@ == "proof_key"@,
        search.actions[i] is ReadSecret <==> search.events[i] == ProofKeyEvent::EntryOpened(true),
{
    assert(search.steps(i));
}

/// Every key that a search ends with comes from what it learned: it is the one
/// in the file that was read, it writes the number that the secret writes, or
/// it is the one whose bytes were asked to be stored just before.
pub proof fn law_key_has_a_source(search: Search, i: int, key: ProofKey)
    requires
        search.valid(),
        0 <= i < search.actions.len(),
        search.actions[i] == ProofKeyAction::Finish(Some(key)),
    ensures
        key@.len() == 32,
        match search.events[i] {
            ProofKeyEvent::FileRead(Some(text)) => key_of_text(text@) == Some(key@),
            ProofKeyEvent::Secret(SecretAnswer::Found(bytes)) => crate::key::big_endian(key@)
                == crate::key::big_endian(bytes@),
            ProofKeyEvent::Stored(stored) => {
                &&& stored
                &&& i > 0
                &&& search.actions[i - 1] matches ProofKeyAction::StoreSecret(bytes)
                &&& bytes@ == key@
                &&& search.events[i - 1] == ProofKeyEvent::Secret(SecretAnswer::NoEntry)
            },
            _ => false,
        },
{
    assert(search.steps(i));
    if i > 0 {
        assert(search.steps(i - 1));
    }
    if let ProofKeyEvent::Secret(SecretAnswer::Found(bytes)) = search.events[i] {
        crate::key::law_scalar_keeps_the_number(bytes@);
    }
    if let ProofKeyEvent::FileRead(Some(text)) = search.events[i] {
        crate::key::law_scalar_of_is_scalar(hex_line(text@)->Ok_0);
    }
}

/// A search ends without a key exactly where it cannot have one: the file cannot
/// be read or holds none, the entry cannot be opened or read, its secret is no
/// scalar, or a new key could not be stored.
pub proof fn law_no_key(search: Search, i: int)
    requires
        search.valid(),
        0 <= i < search.actions.len(),
    ensures
        search.actions[i] == ProofKeyAction::Finish(None) <==> match search.events[i] {
            ProofKeyEvent::Override(_) => false,
            ProofKeyEvent::FileRead(None) => true,
            ProofKeyEvent::FileRead(Some(text)) => key_of_text(text@) is None,
            ProofKeyEvent::EntryOpened(opened) => !opened,
            ProofKeyEvent::Secret(SecretAnswer::Found(bytes)) => !(24 <= bytes@.len() <= 32 && 0
                < crate::key::big_endian(bytes@)
                < 0xffffffff00000000ffffffffffffffffbce6faada7179e84f3b9cac2fc632551int),
            ProofKeyEvent::Secret(SecretAnswer::NoEntry) => false,
            ProofKeyEvent::Secret(SecretAnswer::Failed) => true,
            ProofKeyEvent::Stored(stored) => !stored,
        },
{
    assert(search.steps(i));
    if let ProofKeyEvent::Secret(SecretAnswer::Found(bytes)) = search.events[i] {
        crate::key::law_scalar_keeps_the_number(bytes@);
    }
}

/// The keychain is written exactly where the entry is there and holds nothing.
/// What is written are the bytes of a key that `ProofKey::random` can give: 32
/// bytes that write a number above zero and below the order of the group.
pub proof fn law_only_a_vacant_entry_is_written(search: Search, i: int)
    requires
        search.valid(),
        0 <= i < search.actions.len(),
    ensures
        search.actions[i] is StoreSecret <==> search.events[i] == ProofKeyEvent::Secret(
            SecretAnswer::NoEntry,
        ),
        search.actions[i] matches ProofKeyAction::StoreSecret(bytes) ==> bytes@.len() == 32 && 0
            < crate::key::big_endian(bytes@)
            < 0xffffffff00000000ffffffffffffffffbce6faada7179e84f3b9cac2fc632551int,
        search.actions[i] matches ProofKeyAction::StoreSecret(bytes) ==> exists|key: ProofKey|
            #[trigger] call_ensures(ProofKey::random, (), key) && key@ == bytes@,
{
    assert(search.steps(i));
}

/// Whether `event` tells how the action `action` went.
pub open spec fn tells(action: ProofKeyAction, event: ProofKeyEvent) -> bool {
    match action {
        ProofKeyAction::ReadFile(_) => event is FileRead,
        ProofKeyAction::OpenEntry(_) => event is EntryOpened,
        ProofKeyAction::ReadSecret => event is Secret,
        ProofKeyAction::StoreSecret(_) => event is Stored,
        ProofKeyAction::Finish(_) => false,
    }
}

/// A search waits for how its last action went, whatever that is, and for
/// nothing else. It begins with the environment variable, set or not, and is
/// over where it has asked for a key, or none, to be used.
pub proof fn law_every_answer_is_taken(search: Search, event: ProofKeyEvent)
    requires
        search.valid(),
    ensures
        search.events.len() == 0 ==> (accepts(search.states.last(), event) <==> event is Override),
        search.events.len() > 0 ==> (accepts(search.states.last(), event) <==> tells(
            search.actions.last(),
            event,
        )),
{
    if search.events.len() > 0 {
        assert(search.steps(search.events.len() - 1));
    }
}

/// The events of a search come in the order of its actions: the first is the
/// environment variable, and each of the others tells how the action before it
/// went.
pub proof fn law_events_follow_actions(search: Search, i: int)
    requires
        search.valid(),
        0 <= i < search.events.len(),
    ensures
        i == 0 ==> search.events[0] is Override,
        i > 0 ==> tells(search.actions[i - 1], search.events[i]),
{
    assert(search.steps(i));
    if i > 0 {
        assert(search.steps(i - 1));
    }
}

/// What `service_proof_key` returns for the last state of a search, and an event
/// that it waits for, makes the search one event longer.
pub proof fn law_search_goes_on(search: Search, event: ProofKeyEvent, r: ProofKeyStep)
    requires
        search.valid(),
        accepts(search.states.last(), event),
        call_ensures(service_proof_key, (search.states.last(), event), r),
    ensures
        (Search {
            states: search.states.push(r.state),
            events: search.events.push(event),
            actions: search.actions.push(r.action),
        }).valid(),
{
    let longer = Search {
        states: search.states.push(r.state),
        events: search.events.push(event),
        actions: search.actions.push(r.action),
    };
    assert forall|i: int| 0 <= i < longer.events.len() implies #[trigger] longer.steps(i) by {
        if i < search.events.len() {
            assert(search.steps(i));
        }
    }
}

/// `store_generated` keeps the key it is given and asks for its own bytes to be
/// stored: once they are, that key is what the search ends with.
pub proof fn law_generated_key_is_used(
    key: ProofKey,
    stored: ProofKeyStep,
    event: ProofKeyEvent,
    r: ProofKeyStep,
)
    requires
        call_ensures(store_generated, (key,), stored),
        event == ProofKeyEvent::Stored(true),
        call_ensures(service_proof_key, (stored.state, event), r),
    ensures
        stored.action matches ProofKeyAction::StoreSecret(bytes) && bytes@ == key@,
        accepts(stored.state, event),
        r.action == ProofKeyAction::Finish(Some(key)),
{
}

} // verus!
