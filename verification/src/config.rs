//! Configuration resolution and storage.
//!
//! A configuration key is resolved across three tiers, in order: an
//! environment variable, the OS credential store, and an on-disk file of
//! newline-delimited `KEY=value` entries.  The application reads the
//! environment and the file and hands their contents in as plain values;
//! the credential store is reached through trusted wrappers.

use vstd::prelude::*;
use vstd::string::StrSliceExecFns;
use vstd::string::StringExecFns;

verus! {

/// A user-configurable setting, each tied to a fixed environment variable.
#[derive(Clone, Copy, Debug, PartialEq, Eq, Structural)]
pub enum ConfigKey {
    ConfigPath,
    ApiKey,
    ApiBaseUrl,
}

/// Errors raised while resolving or persisting configuration.
#[derive(Clone, Copy, Debug, PartialEq, Eq, Structural)]
pub enum ConfigError {
    /// No home directory is available to place the default config file in.
    HomeNotSet,
    /// The OS credential store rejected the operation.
    CredentialStoreFailure,
}

/// The fixed environment-variable name of a configuration key.
pub open spec fn spec_env_var_name(k: ConfigKey) -> Seq<char> {
    match k {
        ConfigKey::ApiKey => "SIDEKO_API_KEY"@,
        ConfigKey::ApiBaseUrl => "SIDEKO_BASE_URL"@,
        ConfigKey::ConfigPath => "SIDEKO_CONFIG_PATH"@,
    }
}

impl ConfigKey {
    /// The environment-variable name this key is read from and stored under.
    pub fn env_var_name(&self) -> (r: String)
        ensures
            r@ == spec_env_var_name(*self),
    {
        match self {
            ConfigKey::ApiKey => String::from_str("SIDEKO_API_KEY"),
            ConfigKey::ApiBaseUrl => String::from_str("SIDEKO_BASE_URL"),
            ConfigKey::ConfigPath => String::from_str("SIDEKO_CONFIG_PATH"),
        }
    }
}

/// The outcome of a credential-store lookup.
#[derive(Clone, Debug)]
pub enum StoreLookup {
    /// The store holds a value for the entry.
    Found(String),
    /// The store has no entry under this name: a normal outcome.
    Absent,
    /// The store could not be reached or failed; treated as absent.
    Failed,
}

/// Relies on keyring::Entry::new and keyring::Entry::get_password.  The
/// outcome depends on the platform credential store, so nothing is promised
/// of it; a missing entry is reported apart from other failures.
#[verifier::external_body]
fn keyring_get(service: &str, name: &str) -> (r: StoreLookup) {
    match keyring::Entry::new(service, name) {
        Ok(entry) => match entry.get_password() {
            Ok(v) => StoreLookup::Found(v),
            Err(keyring::Error::NoEntry) => StoreLookup::Absent,
            Err(_) => StoreLookup::Failed,
        },
        Err(_) => StoreLookup::Failed,
    }
}

/// Relies on keyring::Entry::new and keyring::Entry::set_password.  The
/// outcome depends on the platform credential store, so nothing is promised
/// of it beyond the reported success flag.
#[verifier::external_body]
fn keyring_set(service: &str, name: &str, value: &str) -> (r: bool) {
    match keyring::Entry::new(service, name) {
        Ok(entry) => entry.set_password(value).is_ok(),
        Err(_) => false,
    }
}

/// Degrades a credential-store outcome to an optional value: a missing
/// entry and a store failure both read as absent.
pub fn store_lookup_to_option(l: StoreLookup) -> (r: Option<String>)
    ensures
        l matches StoreLookup::Found(v) ==> r matches Some(rv) && rv@ == v@,
        !(l matches StoreLookup::Found(v)) ==> r is None,
{
    match l {
        StoreLookup::Found(v) => Some(v),
        StoreLookup::Absent => None,
        StoreLookup::Failed => None,
    }
}

impl ConfigKey {
    /// Looks this key up in the OS credential store, degrading any store
    /// failure to an absent value.
    pub fn get_keyring(&self) -> (r: Option<String>) {
        let name = self.env_var_name();
        store_lookup_to_option(keyring_get("sideko", name.as_str()))
    }

    /// Stores a value for this key in the OS credential store; a store
    /// failure is surfaced, not swallowed.
    pub fn set_keyring(&self, value: &str) -> (r: Result<(), ConfigError>)
        ensures
            r matches Err(e) ==> e == ConfigError::CredentialStoreFailure,
    {
        let name = self.env_var_name();
        if keyring_set("sideko", name.as_str(), value) {
            Ok(())
        } else {
            Err(ConfigError::CredentialStoreFailure)
        }
    }
}

/// Picks a value across the first two precedence tiers: the environment
/// value wins over the credential-store value whenever it is present.
pub fn resolve_value(env_val: Option<String>, store_val: Option<String>) -> (r: Option<String>)
    ensures
        env_val matches Some(v) ==> r matches Some(rv) && rv@ == v@,
        env_val is None ==> match store_val {
            Some(s) => r matches Some(rv) && rv@ == s@,
            None => r is None,
        },
{
    match env_val {
        Some(v) => Some(v),
        None => store_val,
    }
}

/// Resolves the API key: the environment value if set, otherwise the
/// credential store, otherwise absent.
pub fn get_api_key(env_val: Option<String>) -> (r: Option<String>)
    ensures
        env_val matches Some(v) ==> r matches Some(rv) && rv@ == v@,
{
    match env_val {
        Some(v) => Some(v),
        None => ConfigKey::ApiKey.get_keyring(),
    }
}

/// The default base URL of the hosted service.
pub const DEFAULT_BASE_URL: &'static str = "https://api.sideko.dev/v1";

/// Resolves the service base URL: the environment value if set, otherwise
/// the production default.
pub fn get_base_url(env_val: Option<String>) -> (r: String)
    ensures
        env_val matches Some(u) ==> r@ == u@,
        env_val is None ==> r@ == DEFAULT_BASE_URL@,
{
    match env_val {
        Some(u) => u,
        None => String::from_str(DEFAULT_BASE_URL),
    }
}

/// Whether a string ends with the given suffix.
pub open spec fn spec_ends_with(s: Seq<char>, suffix: Seq<char>) -> bool {
    s.len() >= suffix.len() && s.skip(s.len() - suffix.len()) == suffix
}

/// Checks that a base URL ends with the expected `/v1` segment; a URL
/// without it is probably wrong and deserves a warning.
pub fn url_ends_with_v1(url: &str) -> (r: bool)
    ensures
        r == spec_ends_with(url@, "/v1"@),
{
    proof {
        reveal_strlit("/v1");
    }
    let len = url.unicode_len();
    if len < 3 {
        return false;
    }
    let r = url.get_char(len - 3) == '/' && url.get_char(len - 2) == 'v' && url.get_char(len - 1)
        == '1';
    proof {
        if r {
            assert(url@.skip(len - 3) =~= "/v1"@);
        } else {
            if spec_ends_with(url@, "/v1"@) {
                assert(url@.skip(len - 3)[0] == url@[len - 3]);
                assert(url@.skip(len - 3)[1] == url@[len - 2]);
                assert(url@.skip(len - 3)[2] == url@[len - 1]);
            }
        }
    }
    r
}

/// What shlex's quoting returns; the result depends on the input alone.
pub uninterp spec fn spec_shell_quoted(s: Seq<char>) -> Seq<char>;

/// Relies on shlex::try_quote: quoting is a function of the input string
/// alone, and fails exactly when the input contains a NUL character.
#[verifier::external_body]
fn shell_quote(s: &str) -> (r: Option<String>)
    ensures
        r matches Some(q) ==> q@ == spec_shell_quoted(s@),
        (r is Some) == !s@.contains('\0'),
{
    match shlex::try_quote(s) {
        Ok(q) => Some(q.into_owned()),
        Err(_) => None,
    }
}

/// The value as stored in the config file: shell-quoted so that it
/// survives later re-parsing, falling back to the raw value when quoting
/// is impossible.
pub open spec fn spec_stored_value(s: Seq<char>) -> Seq<char> {
    if s.contains('\0') {
        s
    } else {
        spec_shell_quoted(s)
    }
}

/// Shell-quotes a value for storage, falling back to the raw value when
/// quoting fails.
pub fn quote_value(s: &str) -> (r: String)
    ensures
        r@ == spec_stored_value(s@),
{
    match shell_quote(s) {
        Some(q) => q,
        None => s.to_owned(),
    }
}

/// Whether a config line is an entry for the given key name: it starts
/// with the name followed by `=`.
pub open spec fn spec_is_entry_for(l: Seq<char>, name: Seq<char>) -> bool {
    l.len() > name.len() && l.take(name.len() as int) == name && l[name.len() as int] == '='
}

/// The line stored for a key name and an (already quoted) value.
pub open spec fn spec_entry_line(name: Seq<char>, stored: Seq<char>) -> Seq<char> {
    name + seq!['='] + stored
}

/// A line after a set: an entry line for the key is replaced by the new
/// entry, any other line is kept.
pub open spec fn spec_replace_line(l: Seq<char>, name: Seq<char>, entry: Seq<char>) -> Seq<char> {
    if spec_is_entry_for(l, name) {
        entry
    } else {
        l
    }
}

/// The config file after setting a key: every line for the key is replaced
/// by the new entry; if no line matched, the entry is appended.
pub open spec fn spec_upsert_lines(lines: Seq<Seq<char>>, name: Seq<char>, entry: Seq<char>) -> Seq<
    Seq<char>,
> {
    if exists|i: int| 0 <= i < lines.len() && spec_is_entry_for(lines[i], name) {
        Seq::new(lines.len(), |i: int| spec_replace_line(lines[i], name, entry))
    } else {
        lines.push(entry)
    }
}

/// How many lines of the file are entries for the given key name.
pub open spec fn spec_count_entries(lines: Seq<Seq<char>>, name: Seq<char>) -> nat
    decreases lines.len(),
{
    if lines.len() == 0 {
        0
    } else {
        (if spec_is_entry_for(lines[0], name) {
            1nat
        } else {
            0nat
        }) + spec_count_entries(lines.drop_first(), name)
    }
}

proof fn lemma_count_entries_replace(lines: Seq<Seq<char>>, name: Seq<char>, entry: Seq<char>)
    requires
        spec_is_entry_for(entry, name),
    ensures
        spec_count_entries(
            Seq::new(lines.len(), |i: int| spec_replace_line(lines[i], name, entry)),
            name,
        ) == spec_count_entries(lines, name),
    decreases lines.len(),
{
    let mapped = Seq::new(lines.len(), |i: int| spec_replace_line(lines[i], name, entry));
    if lines.len() == 0 {
        assert(spec_count_entries(mapped, name) == 0);
    } else {
        lemma_count_entries_replace(lines.drop_first(), name, entry);
        let mapped_rest = Seq::new(
            lines.drop_first().len(),
            |i: int| spec_replace_line(lines.drop_first()[i], name, entry),
        );
        assert(mapped.drop_first() =~= mapped_rest);
        assert(mapped[0] == spec_replace_line(lines[0], name, entry));
        assert(spec_is_entry_for(mapped[0], name) == spec_is_entry_for(lines[0], name));
        assert(spec_count_entries(mapped, name) == (if spec_is_entry_for(mapped[0], name) {
            1nat
        } else {
            0nat
        }) + spec_count_entries(mapped.drop_first(), name));
    }
}

proof fn lemma_count_entries_push(lines: Seq<Seq<char>>, name: Seq<char>, entry: Seq<char>)
    requires
        spec_is_entry_for(entry, name),
    ensures
        spec_count_entries(lines.push(entry), name) == spec_count_entries(lines, name) + 1,
    decreases lines.len(),
{
    if lines.len() == 0 {
        assert(lines.push(entry)[0] == entry);
        assert(lines.push(entry).drop_first() =~= Seq::<Seq<char>>::empty());
        assert(spec_count_entries(Seq::<Seq<char>>::empty(), name) == 0);
        assert(spec_count_entries(lines.push(entry), name) == 1);
    } else {
        lemma_count_entries_push(lines.drop_first(), name, entry);
        assert(lines.push(entry)[0] == lines[0]);
        assert(lines.push(entry).drop_first() =~= lines.drop_first().push(entry));
        assert(spec_count_entries(lines.push(entry), name) == (if spec_is_entry_for(
            lines[0],
            name,
        ) {
            1nat
        } else {
            0nat
        }) + spec_count_entries(lines.drop_first().push(entry), name));
    }
}

proof fn lemma_count_entries_zero(lines: Seq<Seq<char>>, name: Seq<char>)
    requires
        forall|i: int| 0 <= i < lines.len() ==> !spec_is_entry_for(lines[i], name),
    ensures
        spec_count_entries(lines, name) == 0,
    decreases lines.len(),
{
    if lines.len() > 0 {
        assert(forall|i: int|
            0 <= i < lines.drop_first().len() ==> lines.drop_first()[i] == lines[i + 1]);
        lemma_count_entries_zero(lines.drop_first(), name);
    }
}

proof fn lemma_count_entries_pos(lines: Seq<Seq<char>>, name: Seq<char>, i: int)
    requires
        0 <= i < lines.len(),
        spec_is_entry_for(lines[i], name),
    ensures
        spec_count_entries(lines, name) >= 1,
    decreases lines.len(),
{
    if i == 0 {
    } else {
        assert(lines.drop_first()[i - 1] == lines[i]);
        lemma_count_entries_pos(lines.drop_first(), name, i - 1);
    }
}

/// Law: after setting a key, the file holds exactly one entry for it when
/// none existed, and the same number of entries as before otherwise.
pub proof fn lemma_upsert_entry_count(lines: Seq<Seq<char>>, name: Seq<char>, entry: Seq<char>)
    requires
        spec_is_entry_for(entry, name),
    ensures
        spec_count_entries(spec_upsert_lines(lines, name, entry), name) == if spec_count_entries(
            lines,
            name,
        ) == 0 {
            1nat
        } else {
            spec_count_entries(lines, name)
        },
{
    if exists|i: int| 0 <= i < lines.len() && spec_is_entry_for(lines[i], name) {
        let i = choose|i: int| 0 <= i < lines.len() && spec_is_entry_for(lines[i], name);
        lemma_count_entries_pos(lines, name, i);
        lemma_count_entries_replace(lines, name, entry);
    } else {
        assert(forall|i: int| 0 <= i < lines.len() ==> !spec_is_entry_for(lines[i], name));
        lemma_count_entries_zero(lines, name);
        lemma_count_entries_push(lines, name, entry);
    }
}

/// Law: setting the same key to the same value twice changes nothing after
/// the first time, and leaves exactly one entry for the key when the file
/// started with at most one.
pub proof fn lemma_upsert_idempotent(lines: Seq<Seq<char>>, name: Seq<char>, entry: Seq<char>)
    requires
        spec_is_entry_for(entry, name),
    ensures
        spec_upsert_lines(spec_upsert_lines(lines, name, entry), name, entry) == spec_upsert_lines(
            lines,
            name,
            entry,
        ),
        spec_count_entries(lines, name) <= 1 ==> spec_count_entries(
            spec_upsert_lines(spec_upsert_lines(lines, name, entry), name, entry),
            name,
        ) == 1,
{
    let u1 = spec_upsert_lines(lines, name, entry);
    if exists|i: int| 0 <= i < lines.len() && spec_is_entry_for(lines[i], name) {
        let i = choose|i: int| 0 <= i < lines.len() && spec_is_entry_for(lines[i], name);
        assert(u1[i] == spec_replace_line(lines[i], name, entry));
        assert(spec_is_entry_for(u1[i], name));
        assert(Seq::new(u1.len(), |k: int| spec_replace_line(u1[k], name, entry)) =~= u1);
    } else {
        assert(u1 == lines.push(entry));
        assert(u1[lines.len() as int] == entry);
        assert(spec_is_entry_for(u1[lines.len() as int], name));
        assert(Seq::new(u1.len(), |k: int| spec_replace_line(u1[k], name, entry)) =~= u1);
    }
    lemma_upsert_entry_count(lines, name, entry);
    lemma_upsert_entry_count(u1, name, entry);
}


/// Decides whether a config line is the entry for a key name.
pub fn line_is_entry_for(line: &str, name: &str) -> (r: bool)
    ensures
        r == spec_is_entry_for(line@, name@),
{
    let n = name.unicode_len();
    let l = line.unicode_len();
    if l <= n {
        return false;
    }
    if line.get_char(n) != '=' {
        return false;
    }
    let mut i: usize = 0;
    while i < n
        invariant
            0 <= i <= n,
            n == name@.len(),
            l == line@.len(),
            l > n,
            line@[n as int] == '=',
            forall|k: int| 0 <= k < i ==> line@[k] == name@[k],
        decreases n - i,
    {
        if line.get_char(i) != name.get_char(i) {
            proof {
                if spec_is_entry_for(line@, name@) {
                    assert(line@.take(n as int)[i as int] == name@[i as int]);
                }
            }
            return false;
        }
        i = i + 1;
    }
    proof {
        assert(line@.take(n as int) =~= name@);
    }
    true
}

/// Builds the stored line for a key and a raw value: the key's variable
/// name, `=`, and the shell-quoted value.
pub fn build_entry_line(key: ConfigKey, value: &str) -> (r: String)
    ensures
        r@ == spec_entry_line(spec_env_var_name(key), spec_stored_value(value@)),
{
    let name = key.env_var_name();
    let stored = quote_value(value);
    let r = name.concat("=").concat(stored.as_str());
    proof {
        reveal_strlit("=");
        assert(r@ =~= spec_entry_line(spec_env_var_name(key), spec_stored_value(value@)));
    }
    r
}

/// Sets a key in the config file's lines: replaces every line for the key
/// with the new entry, or appends the entry when no line matched.
pub fn set_env_lines(key: ConfigKey, value: &str, lines: &Vec<String>) -> (r: Vec<String>)
    ensures
        r.deep_view() == spec_upsert_lines(
            lines.deep_view(),
            spec_env_var_name(key),
            spec_entry_line(spec_env_var_name(key), spec_stored_value(value@)),
        ),
{
    let name = key.env_var_name();
    let entry = build_entry_line(key, value);
    let ghost gname = spec_env_var_name(key);
    let ghost gentry = entry@;
    let mut out: Vec<String> = Vec::new();
    let mut replaced = false;
    let mut i: usize = 0;
    while i < lines.len()
        invariant
            0 <= i <= lines.len(),
            name@ == gname,
            entry@ == gentry,
            out@.len() == i,
            forall|k: int|
                0 <= k < i ==> (#[trigger] out@[k])@ == spec_replace_line(
                    lines@[k]@,
                    gname,
                    gentry,
                ),
            replaced <==> exists|j: int| 0 <= j < i && spec_is_entry_for(lines@[j]@, gname),
        decreases lines.len() - i,
    {
        let line = &lines[i];
        if line_is_entry_for(line.as_str(), name.as_str()) {
            out.push(entry.clone());
            replaced = true;
        } else {
            out.push(line.clone());
        }
        i = i + 1;
    }
    proof {
        assert(forall|k: int|
            0 <= k < lines@.len() ==> lines.deep_view()[k] == (#[trigger] lines@[k])@);
    }
    if !replaced {
        out.push(entry);
        proof {
            assert(forall|j: int|
                0 <= j < lines.deep_view().len() ==> !spec_is_entry_for(
                    lines.deep_view()[j],
                    gname,
                ));
            assert(forall|k: int|
                0 <= k < out@.len() ==> out.deep_view()[k] == (#[trigger] out@[k])@);
            assert(out.deep_view() =~= lines.deep_view().push(gentry));
        }
    } else {
        proof {
            assert(forall|k: int|
                0 <= k < out@.len() ==> out.deep_view()[k] == (#[trigger] out@[k])@);
            assert(out.deep_view() =~= Seq::new(
                lines.deep_view().len(),
                |k: int| spec_replace_line(lines.deep_view()[k], gname, gentry),
            ));
        }
    }
    out
}

/// The newline-delimited file content that a list of lines stands for.
pub open spec fn spec_join_lines(lines: Seq<Seq<char>>) -> Seq<char>
    decreases lines.len(),
{
    if lines.len() == 0 {
        Seq::<char>::empty()
    } else if lines.len() == 1 {
        lines[0]
    } else {
        lines[0] + "\n"@ + spec_join_lines(lines.drop_first())
    }
}

/// No line of the list contains a newline.
pub open spec fn spec_newline_free(lines: Seq<Seq<char>>) -> bool {
    forall|i: int| 0 <= i < lines.len() ==> !(#[trigger] lines[i]).contains('\n')
}

proof fn lemma_join_push(lines: Seq<Seq<char>>, y: Seq<char>)
    ensures
        spec_join_lines(lines.push(y)) == if lines.len() == 0 {
            y
        } else {
            spec_join_lines(lines) + "\n"@ + y
        },
    decreases lines.len(),
{
    if lines.len() == 0 {
        assert(lines.push(y)[0] == y);
    } else {
        lemma_join_push(lines.drop_first(), y);
        assert(lines.push(y)[0] == lines[0]);
        assert(lines.push(y).drop_first() =~= lines.drop_first().push(y));
        if lines.len() == 1 {
            assert(spec_join_lines(lines.push(y)) == lines[0] + "\n"@ + y);
        } else {
            assert(spec_join_lines(lines.push(y)) == lines[0] + "\n"@ + (spec_join_lines(
                lines.drop_first(),
            ) + "\n"@ + y));
            assert(lines[0] + "\n"@ + (spec_join_lines(lines.drop_first()) + "\n"@ + y) =~= (
            lines[0] + "\n"@ + spec_join_lines(lines.drop_first())) + "\n"@ + y);
        }
    }
}

/// Splits file content into its newline-delimited lines.  The result is
/// pinned by its shape: the lines are newline-free, there is at least
/// one, and joining them back yields the content unchanged.
pub fn split_lines(content: &str) -> (r: Vec<String>)
    ensures
        spec_newline_free(r.deep_view()),
        r.deep_view().len() >= 1,
        spec_join_lines(r.deep_view()) == content@,
{
    proof {
        reveal_strlit("\n");
    }
    let len = content.unicode_len();
    let mut out: Vec<String> = Vec::new();
    let mut cur = String::new();
    let mut i: usize = 0;
    while i < len
        invariant
            0 <= i <= len,
            len == content@.len(),
            spec_newline_free(out.deep_view()),
            !cur@.contains('\n'),
            spec_join_lines(out.deep_view().push(cur@)) == content@.take(i as int),
        decreases len - i,
    {
        let ghost prev_out = out.deep_view();
        let ghost prev_cur = cur@;
        let c = content.get_char(i);
        if c == '\n' {
            out.push(cur);
            cur = String::new();
            proof {
                reveal_strlit("\n");
                assert(out.deep_view() =~= prev_out.push(prev_cur));
                lemma_join_push(prev_out.push(prev_cur), cur@);
                assert(content@.take(i + 1) =~= content@.take(i as int) + "\n"@ + cur@);
            }
        } else {
            let piece = content.substring_char(i, i + 1);
            cur = cur.concat(piece);
            proof {
                reveal_strlit("\n");
                assert(cur@ =~= prev_cur.push(c));
                assert(!cur@.contains('\n'));
                lemma_join_push(prev_out, prev_cur);
                lemma_join_push(prev_out, cur@);
                if prev_out.len() == 0 {
                    assert(content@.take(i + 1) =~= content@.take(i as int).push(c));
                } else {
                    assert(spec_join_lines(prev_out) + "\n"@ + cur@ =~= (spec_join_lines(prev_out)
                        + "\n"@ + prev_cur).push(c));
                    assert(content@.take(i + 1) =~= content@.take(i as int).push(c));
                }
            }
        }
        i = i + 1;
    }
    let ghost fin_out = out.deep_view();
    let ghost fin_cur = cur@;
    out.push(cur);
    proof {
        assert(content@.take(len as int) =~= content@);
        assert(out.deep_view() =~= fin_out.push(fin_cur));
        assert(spec_newline_free(out.deep_view()));
    }
    out
}

/// Joins config lines back into newline-delimited file content.
pub fn join_lines(lines: &Vec<String>) -> (r: String)
    ensures
        r@ == spec_join_lines(lines.deep_view()),
{
    proof {
        reveal_strlit("\n");
    }
    let mut out = String::new();
    let mut i: usize = 0;
    while i < lines.len()
        invariant
            0 <= i <= lines.len(),
            out@ == spec_join_lines(lines.deep_view().take(i as int)),
        decreases lines.len() - i,
    {
        let ghost prefix = lines.deep_view().take(i as int);
        if i > 0 {
            out = out.concat("\n");
        }
        out = out.concat(lines[i].as_str());
        proof {
            lemma_join_push(prefix, lines.deep_view()[i as int]);
            assert(lines.deep_view()[i as int] == lines@[i as int]@);
            assert(lines.deep_view().take(i + 1) =~= prefix.push(lines.deep_view()[i as int]));
            if i == 0 {
                assert(out@ =~= lines.deep_view()[0]);
            }
        }
        i = i + 1;
    }
    proof {
        assert(lines.deep_view().take(lines@.len() as int) =~= lines.deep_view());
    }
    out
}

/// Sets a key in the config file's whole content: the content is read as
/// newline-delimited lines, every line for the key is replaced by the new
/// entry (or the entry is appended), and the lines are joined back.
pub fn set_env_content(key: ConfigKey, value: &str, content: &str) -> (r: String)
    ensures
        exists|lines: Seq<Seq<char>>|
            spec_newline_free(lines) && lines.len() >= 1 && spec_join_lines(lines) == content@
                && r@ == spec_join_lines(
                #[trigger] spec_upsert_lines(
                    lines,
                    spec_env_var_name(key),
                    spec_entry_line(spec_env_var_name(key), spec_stored_value(value@)),
                ),
            ),
{
    let lines = split_lines(content);
    let updated = set_env_lines(key, value, &lines);
    let r = join_lines(&updated);
    proof {
        assert(spec_newline_free(lines.deep_view()) && lines.deep_view().len() >= 1
            && spec_join_lines(lines.deep_view()) == content@ && r@ == spec_join_lines(
            spec_upsert_lines(
                lines.deep_view(),
                spec_env_var_name(key),
                spec_entry_line(spec_env_var_name(key), spec_stored_value(value@)),
            ),
        ));
    }
    r
}

/// The path of the user's config file, given the environment override and
/// the home directory: the override wins; otherwise `.sideko` under home.
pub open spec fn spec_default_config_path(home: Seq<char>) -> Seq<char> {
    if home.len() == 0 {
        ".sideko"@
    } else if home.last() == '/' {
        home + ".sideko"@
    } else {
        home + "/.sideko"@
    }
}

/// Builds the default config path `.sideko` under the home directory.
pub fn get_default_config_path(home: Option<String>) -> (r: Result<String, ConfigError>)
    ensures
        match home {
            Some(h) => r matches Ok(p) && p@ == spec_default_config_path(h@),
            None => r matches Err(e) && e == ConfigError::HomeNotSet,
        },
{
    match home {
        Some(h) => {
            let len = h.as_str().unicode_len();
            if len == 0 {
                Ok(String::from_str(".sideko"))
            } else if h.as_str().get_char(len - 1) == '/' {
                Ok(h.concat(".sideko"))
            } else {
                Ok(h.concat("/.sideko"))
            }
        },
        None => Err(ConfigError::HomeNotSet),
    }
}

/// Resolves the config-file path: the environment override if set, else
/// the default under the home directory.
pub fn get_config_path(env_override: Option<String>, home: Option<String>) -> (r: Result<
    String,
    ConfigError,
>)
    ensures
        env_override matches Some(p) ==> r matches Ok(rp) && rp@ == p@,
        env_override is None ==> match home {
            Some(h) => r matches Ok(rp) && rp@ == spec_default_config_path(h@),
            None => r matches Err(e) && e == ConfigError::HomeNotSet,
        },
{
    match env_override {
        Some(p) => Ok(p),
        None => get_default_config_path(home),
    }
}

} // verus!
