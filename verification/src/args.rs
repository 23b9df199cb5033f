//! The module's arguments and the policy they spell.
//!
//! The host hands over a list of words. A word with an equals sign sets a key
//! to a value; a word without one is a flag, a key with the empty value.

use vstd::hash_map::StringHashMap;
use vstd::prelude::*;
use vstd::string::*;
use crate::text::same_text;

verus! {

/// The map that a list of settings amounts to when they are applied in
/// order: a later setting of a key replaces an earlier one.
pub open spec fn assoc(entries: Seq<(Seq<char>, Seq<char>)>) -> Map<Seq<char>, Seq<char>>
    decreases entries.len(),
{
    if entries.len() == 0 {
        Map::empty()
    } else {
        assoc(entries.drop_last()).insert(entries.last().0, entries.last().1)
    }
}

/// The arguments of one invocation: a hash map from keys to values.
pub struct Args {
    map: StringHashMap<String>,
}

impl View for Args {
    type V = Map<Seq<char>, Seq<char>>;

    closed spec fn view(&self) -> Map<Seq<char>, Seq<char>> {
        self.map@.map_values(|value: String| value@)
    }
}

impl Args {
    /// No arguments.
    pub fn new() -> (r: Args)
        ensures
            r@ == Map::<Seq<char>, Seq<char>>::empty(),
    {
        let r = Args { map: StringHashMap::new() };
        assert(r@ =~= Map::<Seq<char>, Seq<char>>::empty());
        r
    }

    /// Sets `key` to `value`, replacing what it was set to.
    pub fn insert(&mut self, key: &str, value: &str)
        ensures
            final(self)@ == old(self)@.insert(key@, value@),
    {
        self.map.insert(String::from_str(key), String::from_str(value));
        assert(self@ =~= old(self)@.insert(key@, value@));
    }

    /// The value `key` is set to, if it is set.
    pub fn get(&self, key: &str) -> (r: Option<&str>)
        ensures
            r.deep_view() == if self@.contains_key(key@) {
                Some(self@[key@])
            } else {
                None
            },
    {
        match self.map.get(key) {
            Some(value) => Some(value.as_str()),
            None => None,
        }
    }

    /// Whether `key` is set.
    pub fn contains_key(&self, key: &str) -> (r: bool)
        ensures
            r == self@.contains_key(key@),
    {
        self.map.contains_key(key)
    }
}

/// Whether `i` is the place of the first equals sign in `arg`.
pub open spec fn first_equals_at(arg: Seq<char>, i: int) -> bool {
    &&& 0 <= i < arg.len()
    &&& arg[i] == '='
    &&& forall|j: int| 0 <= j < i ==> arg[j] != '='
}

/// The key and the value that a word sets, if it has an equals sign: what
/// stands before the first one, and what stands after it.
pub open spec fn split_arg(arg: Seq<char>) -> Option<(Seq<char>, Seq<char>)> {
    if arg.contains('=') {
        let i = choose|i: int| first_equals_at(arg, i);
        Some((arg.subrange(0, i), arg.subrange(i + 1, arg.len() as int)))
    } else {
        None
    }
}

/// The settings that the words with an equals sign make, in order.
pub open spec fn pairs_of(argv: Seq<Seq<char>>) -> Seq<(Seq<char>, Seq<char>)>
    decreases argv.len(),
{
    if argv.len() == 0 {
        Seq::empty()
    } else {
        match split_arg(argv.last()) {
            Some(pair) => pairs_of(argv.drop_last()).push(pair),
            None => pairs_of(argv.drop_last()),
        }
    }
}

/// The settings that the words without an equals sign make, in order: each
/// sets itself to the empty value.
pub open spec fn flags_of(argv: Seq<Seq<char>>) -> Seq<(Seq<char>, Seq<char>)>
    decreases argv.len(),
{
    if argv.len() == 0 {
        Seq::empty()
    } else {
        match split_arg(argv.last()) {
            Some(pair) => flags_of(argv.drop_last()),
            None => flags_of(argv.drop_last()).push((argv.last(), Seq::empty())),
        }
    }
}

/// The words without an equals sign, in order.
pub open spec fn flag_words(argv: Seq<Seq<char>>) -> Seq<Seq<char>>
    decreases argv.len(),
{
    if argv.len() == 0 {
        Seq::empty()
    } else {
        match split_arg(argv.last()) {
            Some(pair) => flag_words(argv.drop_last()),
            None => flag_words(argv.drop_last()).push(argv.last()),
        }
    }
}

/// The flag settings are the flag words, each with the empty value.
proof fn lemma_flags_are_flag_words(argv: Seq<Seq<char>>)
    ensures
        flags_of(argv) == flag_words(argv).map_values(
            |word: Seq<char>| (word, Seq::<char>::empty()),
        ),
    decreases argv.len(),
{
    let pairing = |word: Seq<char>| (word, Seq::<char>::empty());
    if argv.len() > 0 {
        lemma_flags_are_flag_words(argv.drop_last());
    }
    assert(flags_of(argv) =~= flag_words(argv).map_values(pairing));
}

/// The settings that a list of words makes: those of the words with an
/// equals sign first, then the flags, so that a flag replaces a value given
/// to the same key.
pub open spec fn settings_of(argv: Seq<Seq<char>>) -> Seq<(Seq<char>, Seq<char>)> {
    pairs_of(argv) + flags_of(argv)
}

/// The arguments that a list of words spells.
pub open spec fn parsed(argv: Seq<Seq<char>>) -> Map<Seq<char>, Seq<char>> {
    assoc(settings_of(argv))
}

/// Whether `word` is the flag `key`.
pub open spec fn is_flag(word: Seq<char>, key: Seq<char>) -> bool {
    split_arg(word) is None && word == key
}

/// Whether `word` sets `key` to a value.
pub open spec fn sets(word: Seq<char>, key: Seq<char>) -> bool {
    split_arg(word) matches Some(pair) && pair.0 == key
}

/// The value that `word` gives to the key it sets; empty where it sets none.
pub open spec fn value_in(word: Seq<char>) -> Seq<char> {
    match split_arg(word) {
        Some(pair) => pair.1,
        None => Seq::empty(),
    }
}

/// Settings appended after others decide the keys they name and leave the
/// other keys as they were.
proof fn lemma_assoc_append(
    before: Seq<(Seq<char>, Seq<char>)>,
    after: Seq<(Seq<char>, Seq<char>)>,
    key: Seq<char>,
)
    ensures
        (exists|m: int| 0 <= m < after.len() && (#[trigger] after[m]).0 == key) ==> assoc(
            before + after,
        ).contains_key(key) && assoc(before + after)[key] == assoc(after)[key] && assoc(
            after,
        ).contains_key(key),
        (forall|m: int| 0 <= m < after.len() ==> (#[trigger] after[m]).0 != key) ==> (assoc(
            before + after,
        ).contains_key(key) <==> assoc(before).contains_key(key)) && assoc(before + after)[key]
            == assoc(before)[key],
    decreases after.len(),
{
    if after.len() == 0 {
        assert(before + after =~= before);
    } else {
        let rest = after.drop_last();
        assert((before + after).drop_last() =~= before + rest);
        assert((before + after).last() == after.last());
        lemma_assoc_append(before, rest, key);
        if after.last().0 != key {
            if exists|m: int| 0 <= m < after.len() && (#[trigger] after[m]).0 == key {
                let m = choose|m: int| 0 <= m < after.len() && (#[trigger] after[m]).0 == key;
                assert(rest[m] == after[m]);
            } else {
                assert forall|m: int| 0 <= m < rest.len() implies (#[trigger] rest[m]).0
                    != key by {
                    assert(rest[m] == after[m]);
                }
            }
        }
    }
}

/// Every flag setting has the empty value, and every flag word has its
/// setting.
proof fn lemma_flags(argv: Seq<Seq<char>>)
    ensures
        forall|m: int|
            0 <= m < flags_of(argv).len() ==> (#[trigger] flags_of(argv)[m]).1 == Seq::<
                char,
            >::empty() && exists|j: int|
                0 <= j < argv.len() && is_flag(#[trigger] argv[j], flags_of(argv)[m].0),
        forall|j: int|
            0 <= j < argv.len() && split_arg(#[trigger] argv[j]) is None ==> exists|m: int|
                0 <= m < flags_of(argv).len() && (#[trigger] flags_of(argv)[m]).0 == argv[j],
    decreases argv.len(),
{
    if argv.len() > 0 {
        let rest = argv.drop_last();
        lemma_flags(rest);
        let flags = flags_of(argv);
        let before = flags_of(rest);
        assert forall|m: int| 0 <= m < flags.len() implies (#[trigger] flags[m]).1 == Seq::<
            char,
        >::empty() && exists|j: int|
            0 <= j < argv.len() && is_flag(#[trigger] argv[j], flags[m].0) by {
            if m < before.len() {
                assert(flags[m] == before[m]);
                let j = choose|j: int|
                    0 <= j < rest.len() && is_flag(#[trigger] rest[j], before[m].0);
                assert(argv[j] == rest[j]);
            } else {
                assert(is_flag(argv[argv.len() - 1], flags[m].0));
            }
        }
        assert forall|j: int|
            0 <= j < argv.len() && split_arg(#[trigger] argv[j]) is None implies exists|m: int|
            0 <= m < flags.len() && (#[trigger] flags[m]).0 == argv[j] by {
            if j < rest.len() {
                assert(rest[j] == argv[j]);
                let m = choose|m: int|
                    0 <= m < before.len() && (#[trigger] before[m]).0 == rest[j];
                assert(flags[m] == before[m]);
            } else {
                assert(flags[flags.len() - 1].0 == argv[j]);
            }
        }
    }
}

/// A list of settings that all have the empty value gives the empty value to
/// every key it names.
proof fn lemma_assoc_all_empty(entries: Seq<(Seq<char>, Seq<char>)>, key: Seq<char>)
    requires
        forall|m: int|
            0 <= m < entries.len() ==> (#[trigger] entries[m]).1 == Seq::<char>::empty(),
        assoc(entries).contains_key(key),
    ensures
        assoc(entries)[key] == Seq::<char>::empty(),
    decreases entries.len(),
{
    if entries.len() > 0 {
        if entries.last().0 != key {
            let rest = entries.drop_last();
            assert forall|m: int| 0 <= m < rest.len() implies (#[trigger] rest[m]).1 == Seq::<
                char,
            >::empty() by {
                assert(rest[m] == entries[m]);
            }
            lemma_assoc_all_empty(rest, key);
        }
    }
}

/// Among the words with an equals sign, the last one that sets a key decides
/// its value.
proof fn lemma_pairs_last(argv: Seq<Seq<char>>, i: int, key: Seq<char>)
    requires
        0 <= i < argv.len(),
        sets(argv[i], key),
        forall|j: int| i < j < argv.len() ==> !sets(#[trigger] argv[j], key),
    ensures
        assoc(pairs_of(argv)).contains_key(key),
        assoc(pairs_of(argv))[key] == value_in(argv[i]),
    decreases argv.len(),
{
    let rest = argv.drop_last();
    let before = pairs_of(rest);
    if i < argv.len() - 1 {
        assert(rest[i] == argv[i]);
        assert forall|j: int| i < j < rest.len() implies !sets(#[trigger] rest[j], key) by {
            assert(rest[j] == argv[j]);
        }
        lemma_pairs_last(rest, i, key);
        assert(!sets(argv[argv.len() - 1], key));
    }
    match split_arg(argv.last()) {
        Some(pair) => {
            assert(pairs_of(argv).drop_last() =~= before);
            assert(pairs_of(argv).last() == pair);
        },
        None => {},
    }
}

/// A key that no word with an equals sign sets is not among their settings.
proof fn lemma_pairs_absent(argv: Seq<Seq<char>>, key: Seq<char>)
    requires
        forall|j: int| 0 <= j < argv.len() ==> !sets(#[trigger] argv[j], key),
    ensures
        !assoc(pairs_of(argv)).contains_key(key),
    decreases argv.len(),
{
    if argv.len() > 0 {
        let rest = argv.drop_last();
        assert forall|j: int| 0 <= j < rest.len() implies !sets(#[trigger] rest[j], key) by {
            assert(rest[j] == argv[j]);
        }
        lemma_pairs_absent(rest, key);
        assert(!sets(argv[argv.len() - 1], key));
        match split_arg(argv.last()) {
            Some(pair) => {
                assert(pairs_of(argv).drop_last() =~= pairs_of(rest));
                assert(pairs_of(argv).last() == pair);
            },
            None => {},
        }
    }
}

/// A word without an equals sign sets itself to the empty value, whatever
/// other words say about that key and wherever they stand.
pub proof fn flag_reads_empty(argv: Seq<Seq<char>>, i: int)
    requires
        0 <= i < argv.len(),
        split_arg(argv[i]) is None,
    ensures
        parsed(argv).contains_key(argv[i]),
        parsed(argv)[argv[i]] == Seq::<char>::empty(),
{
    lemma_flags(argv);
    lemma_assoc_append(pairs_of(argv), flags_of(argv), argv[i]);
    lemma_assoc_all_empty(flags_of(argv), argv[i]);
}

/// A key that no flag names has the value that the last word setting it
/// gives.
pub proof fn last_setting_reads(argv: Seq<Seq<char>>, i: int, key: Seq<char>)
    requires
        0 <= i < argv.len(),
        sets(argv[i], key),
        forall|j: int| i < j < argv.len() ==> !sets(#[trigger] argv[j], key),
        forall|j: int| 0 <= j < argv.len() ==> !is_flag(#[trigger] argv[j], key),
    ensures
        parsed(argv).contains_key(key),
        parsed(argv)[key] == value_in(argv[i]),
{
    lemma_flags(argv);
    lemma_pairs_last(argv, i, key);
    lemma_assoc_append(pairs_of(argv), flags_of(argv), key);
}

/// A key that no word names or sets is not set.
pub proof fn unnamed_key_is_unset(argv: Seq<Seq<char>>, key: Seq<char>)
    requires
        forall|j: int| 0 <= j < argv.len() ==> !sets(#[trigger] argv[j], key),
        forall|j: int| 0 <= j < argv.len() ==> !is_flag(#[trigger] argv[j], key),
    ensures
        !parsed(argv).contains_key(key),
{
    lemma_flags(argv);
    lemma_pairs_absent(argv, key);
    lemma_assoc_append(pairs_of(argv), flags_of(argv), key);
}

/// Splits a word at its first equals sign, if it has one.
pub fn split_argument(arg: &str) -> (r: Option<(String, String)>)
    ensures
        r.deep_view() == split_arg(arg@),
{
    let n = arg.unicode_len();
    let mut i: usize = 0;
    while i < n
        invariant
            i <= n,
            n == arg@.len(),
            forall|j: int| 0 <= j < i ==> arg@[j] != '=',
        decreases n - i,
    {
        if arg.get_char(i) == '=' {
            proof {
                assert(first_equals_at(arg@, i as int));
                assert(arg@.contains('='));
                let c = choose|c: int| first_equals_at(arg@, c);
                assert(c == i);
            }
            let key = arg.substring_char(0, i);
            let value = arg.substring_char(i + 1, n);
            return Some((String::from_str(key), String::from_str(value)));
        }
        i = i + 1;
    }
    assert(!arg@.contains('='));
    None
}

/// Reads the arguments off the words that the host handed over.
pub fn parse_args(argv: &Vec<String>) -> (r: Args)
    ensures
        r@ == parsed(argv.deep_view()),
{
    let ghost words = argv.deep_view();
    let mut args = Args::new();
    let mut flags: Vec<String> = Vec::new();
    assert(flags.deep_view() =~= Seq::empty());
    let mut i: usize = 0;
    while i < argv.len()
        invariant
            i <= argv.len(),
            words == argv.deep_view(),
            args@ == assoc(pairs_of(words.take(i as int))),
            flags.deep_view() == flag_words(words.take(i as int)),
        decreases argv.len() - i,
    {
        let ghost before = flags.deep_view();
        proof {
            assert(words.take(i + 1).drop_last() =~= words.take(i as int));
            assert(words.take(i + 1).last() == argv[i as int]@);
        }
        match split_argument(argv[i].as_str()) {
            Some(pair) => {
                args.insert(pair.0.as_str(), pair.1.as_str());
                proof {
                    let pairs = pairs_of(words.take(i as int));
                    assert(pairs.push(pair.deep_view()).drop_last() =~= pairs);
                }
            },
            None => {
                flags.push(argv[i].clone());
                assert(flags.deep_view() =~= before.push(argv[i as int]@));
            },
        }
        i = i + 1;
    }
    assert(words.take(i as int) =~= words);
    let ghost pairs = pairs_of(words);
    let ghost names = flags.deep_view();
    proof {
        lemma_flags_are_flag_words(words);
        assert(pairs + flags_of(words).take(0) =~= pairs);
    }
    let mut k: usize = 0;
    while k < flags.len()
        invariant
            k <= flags.len(),
            names == flags.deep_view(),
            flags_of(words) == names.map_values(|word: Seq<char>| (word, Seq::<char>::empty())),
            args@ == assoc(pairs + flags_of(words).take(k as int)),
        decreases flags.len() - k,
    {
        args.insert(flags[k].as_str(), "");
        proof {
            reveal_strlit("");
            let done = pairs + flags_of(words).take(k as int);
            let entry = flags_of(words)[k as int];
            assert(entry == (names[k as int], Seq::<char>::empty()));
            assert(""@ =~= Seq::<char>::empty());
            assert(pairs + flags_of(words).take(k + 1) =~= done.push(entry));
            assert(done.push(entry).drop_last() =~= done);
        }
        k = k + 1;
    }
    assert(flags_of(words).take(k as int) =~= flags_of(words));
    args
}

/// What one login attempt is held to: the organisation whose members may
/// log in, the OAuth application that asks on the module's behalf, the team
/// to which entry is narrowed if any, and what is done for an account once
/// it is let in.
#[derive(Clone, Debug, PartialEq, Eq)]
pub struct Policy {
    pub org: String,
    pub client_id: String,
    pub team: Option<String>,
    /// Make the local account if it is missing.
    pub auto_create_user: bool,
    /// Give a newly made account administrative rights.
    pub sudoer: bool,
    /// Offer to import the account's public keys.
    pub allow_import_keys: bool,
}

/// The mathematical content of a `Policy`.
pub ghost struct PolicyView {
    pub org: Seq<char>,
    pub client_id: Seq<char>,
    pub team: Option<Seq<char>>,
    pub auto_create_user: bool,
    pub sudoer: bool,
    pub allow_import_keys: bool,
}

impl View for Policy {
    type V = PolicyView;

    open spec fn view(&self) -> PolicyView {
        PolicyView {
            org: self.org@,
            client_id: self.client_id@,
            team: self.team.deep_view(),
            auto_create_user: self.auto_create_user,
            sudoer: self.sudoer,
            allow_import_keys: self.allow_import_keys,
        }
    }
}

/// A required argument that is missing.
#[derive(Clone, Copy, Debug, PartialEq, Eq, Structural)]
pub enum PolicyError {
    MissingOrg,
    MissingClientId,
}

/// The policy that a set of arguments spells.
///
/// `org` and `client_id` must be set. `team` is optional. `auto_create_user`
/// and `allow_import_keys` count when they are set, whatever to; the value
/// `sudoer` of `auto_create_user` asks for administrative rights.
pub open spec fn policy_of(args: Map<Seq<char>, Seq<char>>) -> Result<PolicyView, PolicyError> {
    if !args.contains_key("org"@) {
        Err(PolicyError::MissingOrg)
    } else if !args.contains_key("client_id"@) {
        Err(PolicyError::MissingClientId)
    } else {
        Ok(
            PolicyView {
                org: args["org"@],
                client_id: args["client_id"@],
                team: if args.contains_key("team"@) {
                    Some(args["team"@])
                } else {
                    None
                },
                auto_create_user: args.contains_key("auto_create_user"@),
                sudoer: args.contains_key("auto_create_user"@) && args["auto_create_user"@]
                    == "sudoer"@,
                allow_import_keys: args.contains_key("allow_import_keys"@),
            },
        )
    }
}

/// The mathematical content of a policy or the reason there is none.
pub open spec fn policy_view(r: Result<Policy, PolicyError>) -> Result<PolicyView, PolicyError> {
    match r {
        Ok(policy) => Ok(policy@),
        Err(e) => Err(e),
    }
}

/// Reads the policy off the arguments.
pub fn policy_from_args(args: &Args) -> (r: Result<Policy, PolicyError>)
    ensures
        policy_view(r) == policy_of(args@),
{
    let org = match args.get("org") {
        Some(org) => String::from_str(org),
        None => {
            return Err(PolicyError::MissingOrg);
        },
    };
    let client_id = match args.get("client_id") {
        Some(client_id) => String::from_str(client_id),
        None => {
            return Err(PolicyError::MissingClientId);
        },
    };
    let team = match args.get("team") {
        Some(team) => Some(String::from_str(team)),
        None => None,
    };
    let (auto_create_user, sudoer) = match args.get("auto_create_user") {
        Some(kind) => (true, same_text(kind, "sudoer")),
        None => (false, false),
    };
    let allow_import_keys = args.contains_key("allow_import_keys");
    Ok(Policy { org, client_id, team, auto_create_user, sudoer, allow_import_keys })
}

} // verus!
