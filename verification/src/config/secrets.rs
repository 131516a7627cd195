//! Secrets: how a secret is stored, how it resolves to its text, and the
//! table of named secrets.
use crate::encoding;
use crate::text;
use crate::text::{append_str, starts_with_str, str_equal};
use vstd::prelude::*;
use vstd::string::*;
use vstd::utf8::*;

verus! {

/// A secret value that can be stored in different formats.
pub enum SecretValue {
    /// Plain text secret (not recommended for production)
    Plain(String),
    /// Base64 encoded secret
    Base64(String),
    /// Reference to environment variable
    EnvVar(String),
    /// Reference to file path
    FilePath(String),
    /// Encrypted secret, kept as it is
    Encrypted(String),
}

/// Secret configuration loaded from files.
pub struct SecretConfig {
    pub secrets: Vec<(String, SecretValue)>,
    pub encryption_key: Option<String>,
    pub key_file: Option<String>,
}

/// How resolving a secret ends, given what was read for it from outside
/// (the environment variable or the file it refers to, when it refers to one).
pub open spec fn resolution_ok(secret: SecretValue, fetched: Option<Seq<char>>, text: Seq<char>) -> bool {
    match secret {
        SecretValue::Plain(v) => text == v@,
        SecretValue::Encrypted(v) => text == v@,
        SecretValue::EnvVar(_) => fetched == Some(text),
        SecretValue::FilePath(_) => fetched == Some(text),
        SecretValue::Base64(e) => exists|b: Seq<u8>|
            encoding::base64_encoding(b) == e@ && valid_utf8(b) && text == decode_utf8(b),
    }
}

/// The error message of a failed resolution.
pub open spec fn resolution_error(secret: SecretValue, fetched: Option<Seq<char>>, message: Seq<char>) -> bool {
    match secret {
        SecretValue::Plain(_) => false,
        SecretValue::Encrypted(_) => false,
        SecretValue::EnvVar(name) => fetched is None && message == "Environment variable '"@ + name@
            + "' not found"@,
        SecretValue::FilePath(path) => fetched is None && message
            == "Failed to read secret from file: "@ + path@,
        SecretValue::Base64(e) => {
            ||| (forall|b: Seq<u8>| encoding::base64_encoding(b) != e@) && message
                == "Failed to decode base64 secret"@
            ||| (exists|b: Seq<u8>| encoding::base64_encoding(b) == e@ && !valid_utf8(b)) && message
                == "Invalid UTF-8 in decoded secret"@
        },
    }
}

impl SecretValue {
    /// What must be read from outside to resolve the secret: `Some((true,
    /// name))` for an environment variable, `Some((false, path))` for a file.
    pub fn external_reference(&self) -> (r: Option<(bool, String)>)
        ensures
            match *self {
                SecretValue::EnvVar(name) => r matches Some((true, n)) && n@ == name@,
                SecretValue::FilePath(path) => r matches Some((false, p)) && p@ == path@,
                _ => r is None,
            },
    {
        match self {
            SecretValue::EnvVar(name) => Some((true, String::from_str(name.as_str()))),
            SecretValue::FilePath(path) => Some((false, String::from_str(path.as_str()))),
            _ => None,
        }
    }

    /// The text of the secret. `fetched` is what was read for a reference
    /// (the variable's value or the file's content), `None` when it could
    /// not be read.
    pub fn resolve(&self, fetched: Option<String>) -> (r: Result<String, String>)
        ensures
            r matches Ok(t) ==> resolution_ok(*self, text::opt_view(fetched), t@),
            r matches Err(m) ==> resolution_error(*self, text::opt_view(fetched), m@),
            match *self {
                SecretValue::Plain(_) => r is Ok,
                SecretValue::Encrypted(_) => r is Ok,
                SecretValue::EnvVar(_) => r is Ok <==> fetched is Some,
                SecretValue::FilePath(_) => r is Ok <==> fetched is Some,
                SecretValue::Base64(e) => (forall|b: Seq<u8>| encoding::base64_encoding(b) != e@) ==> r is Err,
            },
    {
        match self {
            SecretValue::Plain(value) => Ok(String::from_str(value.as_str())),
            SecretValue::Encrypted(value) => Ok(String::from_str(value.as_str())),
            SecretValue::EnvVar(name) => match fetched {
                Some(v) => Ok(v),
                None => {
                    let mut m = String::from_str("Environment variable '");
                    append_str(&mut m, name.as_str());
                    append_str(&mut m, "' not found");
                    Err(m)
                },
            },
            SecretValue::FilePath(path) => match fetched {
                Some(v) => Ok(v),
                None => {
                    let mut m = String::from_str("Failed to read secret from file: ");
                    append_str(&mut m, path.as_str());
                    Err(m)
                },
            },
            SecretValue::Base64(encoded) => match encoding::base64_decode(encoded.as_str()) {
                None => Err(String::from_str("Failed to decode base64 secret")),
                Some(bytes) => {
                    let ghost b = bytes@;
                    match encoding::string_from_utf8(bytes) {
                        Some(t) => {
                            assert(encoding::base64_encoding(b) == encoded@ && valid_utf8(b));
                            Ok(t)
                        },
                        None => {
                            assert(encoding::base64_encoding(b) == encoded@ && !valid_utf8(b));
                            Err(String::from_str("Invalid UTF-8 in decoded secret"))
                        },
                    }
                },
            },
        }
    }
}

/// The lower-case form of a text, as `str::to_lowercase` gives it.
pub uninterp spec fn lowercase(s: Seq<char>) -> Seq<char>;

/// `str::to_lowercase`: the lower-case form of `s` by the Unicode rules of
/// the standard library; its result is `lowercase(s)`.
#[verifier::external_body]
pub(crate) fn to_lowercase(s: &str) -> (r: String)
    ensures
        r@ == lowercase(s@),
{
    s.to_lowercase()
}

/// The mathematical form of a [`SecretValue`].
pub enum SecretView {
    Plain(Seq<char>),
    Base64(Seq<char>),
    EnvVar(Seq<char>),
    FilePath(Seq<char>),
    Encrypted(Seq<char>),
}

impl View for SecretValue {
    type V = SecretView;

    open spec fn view(&self) -> SecretView {
        match self {
            SecretValue::Plain(v) => SecretView::Plain(v@),
            SecretValue::Base64(v) => SecretView::Base64(v@),
            SecretValue::EnvVar(v) => SecretView::EnvVar(v@),
            SecretValue::FilePath(v) => SecretView::FilePath(v@),
            SecretValue::Encrypted(v) => SecretView::Encrypted(v@),
        }
    }
}

/// How a value read from the environment is stored: the prefixes `base64:`,
/// `file:` and `env:` mark an encoded secret, a file reference and a
/// variable reference (the prefix is dropped); anything else is plain text.
pub open spec fn classify(value: Seq<char>) -> SecretView {
    if text::has_prefix(value, "base64:"@) {
        SecretView::Base64(value.skip(7))
    } else if text::has_prefix(value, "file:"@) {
        SecretView::FilePath(value.skip(5))
    } else if text::has_prefix(value, "env:"@) {
        SecretView::EnvVar(value.skip(4))
    } else {
        SecretView::Plain(value)
    }
}

/// The stored form of a value read from the environment.
pub fn classify_env_value(value: String) -> (r: SecretValue)
    ensures
        r@ == classify(value@),
{
    let n = value.as_str().unicode_len();
    proof {
        reveal_strlit("base64:");
        reveal_strlit("file:");
        reveal_strlit("env:");
    }
    if starts_with_str(value.as_str(), "base64:") {
        SecretValue::Base64(String::from_str(value.as_str().substring_char(7, n)))
    } else if starts_with_str(value.as_str(), "file:") {
        SecretValue::FilePath(String::from_str(value.as_str().substring_char(5, n)))
    } else if starts_with_str(value.as_str(), "env:") {
        SecretValue::EnvVar(String::from_str(value.as_str().substring_char(4, n)))
    } else {
        SecretValue::Plain(value)
    }
}

/// No key occurs twice among the entries.
pub open spec fn keys_unique(entries: Seq<(String, SecretValue)>) -> bool {
    forall|i: int, j: int|
        0 <= i < j < entries.len() ==> #[trigger] entries[i].0@ != #[trigger] entries[j].0@
}

/// The secrets of a table of entries, by key.
pub open spec fn entries_map(entries: Seq<(String, SecretValue)>) -> Map<Seq<char>, SecretView> {
    Map::new(
        |k: Seq<char>| exists|i: int| 0 <= i < entries.len() && entries[i].0@ == k,
        |k: Seq<char>| entries[choose|i: int| 0 <= i < entries.len() && entries[i].0@ == k].1@,
    )
}

proof fn lemma_entries_map_at(entries: Seq<(String, SecretValue)>, i: int)
    requires
        keys_unique(entries),
        0 <= i < entries.len(),
    ensures
        entries_map(entries).contains_key(entries[i].0@),
        entries_map(entries)[entries[i].0@] == entries[i].1@,
{
    let k = entries[i].0@;
    assert(entries_map(entries).contains_key(k));
    let j = choose|j: int| 0 <= j < entries.len() && entries[j].0@ == k;
    if j < i {
        assert(entries[j].0@ != entries[i].0@);
    } else if j > i {
        assert(entries[i].0@ != entries[j].0@);
    }
}

/// Replacing entry `i` (whose key is `k`) by one with the same key and
/// value `v` stores `v` under `k` and keeps the rest.
proof fn lemma_entries_map_replace(
    old_entries: Seq<(String, SecretValue)>,
    new_entries: Seq<(String, SecretValue)>,
    i: int,
    k: Seq<char>,
)
    requires
        keys_unique(old_entries),
        0 <= i < old_entries.len(),
        new_entries.len() == old_entries.len(),
        old_entries[i].0@ == k,
        new_entries[i].0@ == k,
        forall|j: int| 0 <= j < old_entries.len() && j != i ==> new_entries[j] == old_entries[j],
    ensures
        keys_unique(new_entries),
        entries_map(new_entries) == entries_map(old_entries).insert(k, new_entries[i].1@),
{
    assert(keys_unique(new_entries)) by {
        assert forall|a: int, b: int| 0 <= a < b < new_entries.len() implies #[trigger] new_entries[a].0@
            != #[trigger] new_entries[b].0@ by {
            assert(old_entries[a].0@ != old_entries[b].0@);
        }
    }
    let target = entries_map(old_entries).insert(k, new_entries[i].1@);
    assert forall|kk: Seq<char>| #[trigger] entries_map(new_entries).contains_key(kk)
        == target.contains_key(kk) by {
        if kk != k {
            if exists|j: int| 0 <= j < old_entries.len() && old_entries[j].0@ == kk {
                let j = choose|j: int| 0 <= j < old_entries.len() && old_entries[j].0@ == kk;
                assert(new_entries[j].0@ == kk);
            }
            if exists|j: int| 0 <= j < new_entries.len() && new_entries[j].0@ == kk {
                let j = choose|j: int| 0 <= j < new_entries.len() && new_entries[j].0@ == kk;
                assert(old_entries[j].0@ == kk);
            }
        } else {
            assert(new_entries[i].0@ == kk);
        }
    }
    assert forall|kk: Seq<char>| #[trigger] entries_map(new_entries).contains_key(kk) implies entries_map(
        new_entries,
    )[kk] == target[kk] by {
        let j = choose|j: int| 0 <= j < new_entries.len() && new_entries[j].0@ == kk;
        lemma_entries_map_at(new_entries, j);
        if kk != k {
            lemma_entries_map_at(old_entries, j);
        }
    }
    assert(entries_map(new_entries) =~= target);
}

/// Appending an entry under a new key stores its value under that key.
proof fn lemma_entries_map_push(
    old_entries: Seq<(String, SecretValue)>,
    entry: (String, SecretValue),
)
    requires
        keys_unique(old_entries),
        forall|j: int| 0 <= j < old_entries.len() ==> old_entries[j].0@ != entry.0@,
    ensures
        keys_unique(old_entries.push(entry)),
        entries_map(old_entries.push(entry)) == entries_map(old_entries).insert(entry.0@, entry.1@),
{
    let new_entries = old_entries.push(entry);
    let n = old_entries.len() as int;
    let k = entry.0@;
    assert(keys_unique(new_entries)) by {
        assert forall|a: int, b: int| 0 <= a < b < new_entries.len() implies #[trigger] new_entries[a].0@
            != #[trigger] new_entries[b].0@ by {
            if b < n {
                assert(old_entries[a].0@ != old_entries[b].0@);
            }
        }
    }
    let target = entries_map(old_entries).insert(k, entry.1@);
    assert forall|kk: Seq<char>| #[trigger] entries_map(new_entries).contains_key(kk)
        == target.contains_key(kk) by {
        if kk != k {
            if exists|j: int| 0 <= j < old_entries.len() && old_entries[j].0@ == kk {
                let j = choose|j: int| 0 <= j < old_entries.len() && old_entries[j].0@ == kk;
                assert(new_entries[j].0@ == kk);
            }
            if exists|j: int| 0 <= j < new_entries.len() && new_entries[j].0@ == kk {
                let j = choose|j: int| 0 <= j < new_entries.len() && new_entries[j].0@ == kk;
                assert(old_entries[j].0@ == kk);
            }
        } else {
            assert(new_entries[n].0@ == kk);
        }
    }
    assert forall|kk: Seq<char>| #[trigger] entries_map(new_entries).contains_key(kk) implies entries_map(
        new_entries,
    )[kk] == target[kk] by {
        let j = choose|j: int| 0 <= j < new_entries.len() && new_entries[j].0@ == kk;
        lemma_entries_map_at(new_entries, j);
        if kk != k {
            lemma_entries_map_at(old_entries, j);
        }
    }
    assert(entries_map(new_entries) =~= target);
}

/// The table after inserting entries one after another (a later entry
/// replaces an earlier one under the same key).
pub open spec fn inserted_all(
    table: Map<Seq<char>, SecretView>,
    entries: Seq<(String, SecretValue)>,
) -> Map<Seq<char>, SecretView>
    decreases entries.len(),
{
    if entries.len() == 0 {
        table
    } else {
        inserted_all(table, entries.drop_last()).insert(entries.last().0@, entries.last().1@)
    }
}

/// The table after taking in environment variables: each variable whose
/// name starts with `prefix` is stored, in the order given, under its name
/// without the prefix in lower case, in the form its value marks.
pub open spec fn env_loaded(
    table: Map<Seq<char>, SecretView>,
    vars: Seq<(String, String)>,
    prefix: Seq<char>,
) -> Map<Seq<char>, SecretView>
    decreases vars.len(),
{
    if vars.len() == 0 {
        table
    } else {
        let before = env_loaded(table, vars.drop_last(), prefix);
        let (name, value) = vars.last();
        if text::has_prefix(name@, prefix) {
            before.insert(lowercase(name@.skip(prefix.len() as int)), classify(value@))
        } else {
            before
        }
    }
}

/// Secret management: a table of named secrets and the key settings that
/// came with them.
pub struct SecretManager {
    secrets: Vec<(String, SecretValue)>,
    key_file: Option<String>,
    encrypted: bool,
}

impl SecretManager {
    #[verifier::type_invariant]
    spec fn unique_keys(&self) -> bool {
        keys_unique(self.secrets@)
    }

    /// The secrets by key.
    pub closed spec fn table(&self) -> Map<Seq<char>, SecretView> {
        entries_map(self.secrets@)
    }

    /// The key file named by the last loaded secrets file.
    pub closed spec fn key_file_path(&self) -> Option<Seq<char>> {
        text::opt_view(self.key_file)
    }

    /// Whether the last loaded secrets file named an encryption key.
    pub closed spec fn is_encrypted(&self) -> bool {
        self.encrypted
    }

    /// An empty table.
    pub fn new() -> (r: Self)
        ensures
            r.table() == Map::<Seq<char>, SecretView>::empty(),
            r.key_file_path() is None,
            !r.is_encrypted(),
    {
        let r = SecretManager { secrets: Vec::new(), key_file: None, encrypted: false };
        assert(r.table() =~= Map::<Seq<char>, SecretView>::empty());
        r
    }

    /// The secret stored under `key`, if any.
    pub fn get(&self, key: &str) -> (r: Option<&SecretValue>)
        ensures
            self.table().contains_key(key@) ==> (r matches Some(v) && v@ == self.table()[key@]),
            !self.table().contains_key(key@) ==> r is None,
    {
        proof {
            use_type_invariant(self);
        }
        let n = self.secrets.len();
        let mut i: usize = 0;
        while i < n
            invariant
                n == self.secrets@.len(),
                i <= n,
                keys_unique(self.secrets@),
                forall|j: int| 0 <= j < i ==> self.secrets@[j].0@ != key@,
            decreases n - i,
        {
            if str_equal(self.secrets[i].0.as_str(), key) {
                proof {
                    lemma_entries_map_at(self.secrets@, i as int);
                }
                return Some(&self.secrets[i].1);
            }
            i = i + 1;
        }
        None
    }

    /// Stores `value` under `key`, replacing what was stored there.
    pub fn insert(&mut self, key: String, value: SecretValue)
        ensures
            final(self).table() == old(self).table().insert(key@, value@),
            final(self).key_file_path() == old(self).key_file_path(),
            final(self).is_encrypted() == old(self).is_encrypted(),
    {
        proof {
            use_type_invariant(&*self);
        }
        let ghost old_entries = self.secrets@;
        let ghost k = key@;
        let mut entries = Vec::new();
        std::mem::swap(&mut entries, &mut self.secrets);
        let n = entries.len();
        let mut i: usize = 0;
        while i < n
            invariant
                n == entries@.len(),
                entries@ == old_entries,
                old_entries == old(self).secrets@,
                keys_unique(old_entries),
                k == key@,
                self.key_file == old(self).key_file,
                self.encrypted == old(self).encrypted,
                i <= n,
                forall|j: int| 0 <= j < i ==> old_entries[j].0@ != k,
            decreases n - i,
        {
            if str_equal(entries[i].0.as_str(), key.as_str()) {
                entries.set(i, (key, value));
                proof {
                    lemma_entries_map_replace(old_entries, entries@, i as int, k);
                }
                self.secrets = entries;
                return;
            }
            i = i + 1;
        }
        proof {
            lemma_entries_map_push(old_entries, (key, value));
        }
        entries.push((key, value));
        self.secrets = entries;
    }

    /// Takes in a parsed secrets file: its key settings, then each secret in
    /// order.
    pub fn load_config(&mut self, config: SecretConfig)
        ensures
            final(self).table() == inserted_all(old(self).table(), config.secrets@),
            final(self).key_file_path() == text::opt_view(config.key_file),
            final(self).is_encrypted() == config.encryption_key is Some,
    {
        proof {
            use_type_invariant(&*self);
        }
        self.key_file = config.key_file;
        self.encrypted = config.encryption_key.is_some();
        let ghost all = config.secrets@;
        let ghost start = self.table();
        let mut rest = config.secrets;
        let n = rest.len();
        let mut i: usize = 0;
        while i < n
            invariant
                n == all.len(),
                i <= n,
                rest@ == all.skip(i as int),
                self.table() == inserted_all(start, all.take(i as int)),
                self.key_file_path() == text::opt_view(config.key_file),
                self.is_encrypted() == config.encryption_key is Some,
            decreases n - i,
        {
            let (key, value) = rest.remove(0);
            assert(all.take(i + 1).drop_last() =~= all.take(i as int));
            assert(all[i as int] == (key, value));
            self.insert(key, value);
            assert(all.skip(i + 1) =~= all.skip(i as int).skip(1));
            i = i + 1;
        }
        assert(all.take(n as int) =~= all);
    }

    /// Takes in the environment variables whose names start with `prefix`.
    pub fn load_from_env(&mut self, vars: Vec<(String, String)>, prefix: &str)
        ensures
            final(self).table() == env_loaded(old(self).table(), vars@, prefix@),
            final(self).key_file_path() == old(self).key_file_path(),
            final(self).is_encrypted() == old(self).is_encrypted(),
    {
        let ghost all = vars@;
        let ghost start = self.table();
        let n = vars.len();
        let mut i: usize = 0;
        while i < n
            invariant
                n == all.len(),
                vars@ == all,
                i <= n,
                self.table() == env_loaded(start, all.take(i as int), prefix@),
                self.key_file_path() == old(self).key_file_path(),
                self.is_encrypted() == old(self).is_encrypted(),
            decreases n - i,
        {
            let name = vars[i].0.as_str();
            assert(all.take(i + 1).drop_last() =~= all.take(i as int));
            if starts_with_str(name, prefix) {
                let len = name.unicode_len();
                let plen = prefix.unicode_len();
                let key = to_lowercase(name.substring_char(plen, len));
                assert(name@.subrange(plen as int, len as int) =~= name@.skip(plen as int));
                let value = classify_env_value(vars[i].1.clone());
                self.insert(key, value);
            }
            i = i + 1;
        }
        assert(all.take(n as int) =~= all);
    }
}

impl Default for SecretManager {
    fn default() -> (r: Self)
        ensures
            r.table() == Map::<Seq<char>, SecretView>::empty(),
            r.key_file_path() is None,
            !r.is_encrypted(),
    {
        Self::new()
    }
}

/// A read gives back what the last write under the same key stored, and a
/// write leaves every other key as it was.
pub proof fn law_secret_read_after_write(
    before: SecretManager,
    after: SecretManager,
    key: Seq<char>,
    value: SecretView,
    other: Seq<char>,
)
    requires
        after.table() == before.table().insert(key, value),
    ensures
        after.table().contains_key(key),
        after.table()[key] == value,
        other != key ==> (after.table().contains_key(other) == before.table().contains_key(other)),
        other != key && before.table().contains_key(other) ==> after.table()[other]
            == before.table()[other],
{
}

/// A secret stored as the Base64 of a text's UTF-8 bytes resolves to that
/// text: any text it resolves to is that one, and it never fails.
pub proof fn law_base64_secret_round_trip(
    secret: SecretValue,
    t: Seq<char>,
    fetched: Option<Seq<char>>,
    text: Seq<char>,
    message: Seq<char>,
)
    requires
        secret matches SecretValue::Base64(e) && e@ == encoding::base64_encoding(encode_utf8(t)),
    ensures
        resolution_ok(secret, fetched, text) ==> text == t,
        !resolution_error(secret, fetched, message),
{
    let e = secret->Base64_0;
    vstd::utf8::encode_utf8_valid_utf8(t);
    vstd::utf8::encode_utf8_decode_utf8(t);
    if resolution_ok(secret, fetched, text) {
        let b = choose|b: Seq<u8>|
            encoding::base64_encoding(b) == e@ && valid_utf8(b) && text == decode_utf8(b);
        encoding::lemma_base64_injective(b, encode_utf8(t));
    }
    if resolution_error(secret, fetched, message) {
        if exists|b: Seq<u8>| encoding::base64_encoding(b) == e@ && !valid_utf8(b) {
            let b = choose|b: Seq<u8>| encoding::base64_encoding(b) == e@ && !valid_utf8(b);
            encoding::lemma_base64_injective(b, encode_utf8(t));
        }
    }
}

} // verus!
