//! Statement detection for wrapped interactive programs (psql, mysql,
//! redis-cli, ...): the delimiter of each tool, and a quote-aware buffer
//! that reports each complete statement typed by the user.
use vstd::prelude::*;

use crate::text::{owned, str_chars, str_eq, trim, trimmed_string};
use crate::engine::command::views;

verus! {

// ---------------------------------------------------------------------------
// Delimiter
// ---------------------------------------------------------------------------

/// Statement delimiter for the wrapped program.
#[derive(Debug, Clone, Copy, PartialEq, Eq, Structural)]
pub enum Delimiter {
    /// A specific character (e.g. `;`).
    Char(char),
    /// Newline (`\n`).
    Newline,
}

/// The delimiter a configuration string names: `\n` (escaped or literal)
/// is the newline; a one-byte string is that character; anything else
/// falls back to `;`.
pub open spec fn delimiter_for(s: Seq<char>) -> Delimiter {
    if s == seq!['\\', 'n'] || s == seq!['\n'] {
        Delimiter::Newline
    } else if s.len() == 1 && (s[0] as u32) < 0x80 {
        Delimiter::Char(s[0])
    } else {
        Delimiter::Char(';')
    }
}

/// The byte that completes a statement.
pub open spec fn trigger_of(d: Delimiter) -> u8 {
    match d {
        Delimiter::Char(c) => (c as u32) as u8,
        Delimiter::Newline => 10u8,
    }
}

impl Delimiter {
    /// Parses a delimiter from a config string (see [`delimiter_for`]).
    pub fn from_str_config(s: &str) -> (r: Self)
        ensures
            r == delimiter_for(s@),
    {
        let v = str_chars(s);
        if v.len() == 2 && v[0] == '\\' && v[1] == 'n' {
            proof {
                assert(s@ =~= seq!['\\', 'n']);
            }
            return Delimiter::Newline;
        }
        if v.len() == 1 && v[0] == '\n' {
            proof {
                assert(s@ =~= seq!['\n']);
            }
            return Delimiter::Newline;
        }
        proof {
            assert(s@ != seq!['\\', 'n']) by {
                if s@ == seq!['\\', 'n'] {
                    assert(s@[0] == '\\' && s@[1] == 'n');
                }
            }
            assert(s@ != seq!['\n']) by {
                if s@ == seq!['\n'] {
                    assert(s@[0] == '\n');
                }
            }
        }
        if v.len() == 1 && (v[0] as u32) < 0x80 {
            Delimiter::Char(v[0])
        } else {
            Delimiter::Char(';')
        }
    }

    /// The byte value that triggers statement completion.
    pub fn trigger_byte(self) -> (r: u8)
        ensures
            r == trigger_of(self),
    {
        match self {
            Delimiter::Char(c) => (c as u32) as u8,
            Delimiter::Newline => 10u8,
        }
    }
}

// ---------------------------------------------------------------------------
// Per-tool configuration
// ---------------------------------------------------------------------------

/// User configuration for one wrapped tool.
#[derive(Debug, Clone, Default)]
pub struct WrapperToolConfig {
    /// Statement delimiter, as a config string (`;`, `\n`, ...).
    pub delimiter: String,
    /// Check groups applied to this tool (empty = the global setting).
    pub check_groups: Vec<String>,
}

/// Abstract value of a tool configuration.
pub ghost struct ToolModel {
    pub delimiter: Seq<char>,
    pub check_groups: Seq<Seq<char>>,
}

impl View for WrapperToolConfig {
    type V = ToolModel;

    open spec fn view(&self) -> ToolModel {
        ToolModel { delimiter: self.delimiter@, check_groups: views(self.check_groups@) }
    }
}

/// Tool configurations by program name; each name occurs at most once.
#[derive(Debug)]
pub struct ToolTable {
    entries: Vec<(String, WrapperToolConfig)>,
}

impl ToolTable {
    /// No name occurs twice.
    #[verifier::type_invariant]
    spec fn keys_unique(self) -> bool {
        forall|i: int, j: int|
            0 <= i < j < self.entries@.len() ==> (#[trigger] self.entries@[i]).0@ != (
            #[trigger] self.entries@[j]).0@
    }

    /// The table as a map from program name to configuration.
    pub closed spec fn model(self) -> Map<Seq<char>, ToolModel> {
        Map::new(
            |k: Seq<char>| exists|i: int| 0 <= i < self.entries@.len() && #[trigger] self.entries@[i].0@ == k,
            |k: Seq<char>|
                {
                    let i = choose|i: int| 0 <= i < self.entries@.len() && #[trigger] self.entries@[i].0@ == k;
                    self.entries@[i].1@
                },
        )
    }

    /// An empty table.
    pub fn new() -> (r: Self)
        ensures
            r.model() == Map::<Seq<char>, ToolModel>::empty(),
    {
        let r = ToolTable { entries: Vec::new() };
        proof {
            assert(r.model() =~= Map::<Seq<char>, ToolModel>::empty());
        }
        r
    }

    fn find(&self, key: &str) -> (r: Option<usize>)
        ensures
            match r {
                Some(i) => i < self.entries@.len() && self.entries@[i as int].0@ == key@,
                None => forall|i: int| 0 <= i < self.entries@.len() ==> (#[trigger] self.entries@[i]).0@ != key@,
            },
    {
        let mut i: usize = 0;
        while i < self.entries.len()
            invariant
                i <= self.entries@.len(),
                forall|j: int| 0 <= j < i ==> (#[trigger] self.entries@[j]).0@ != key@,
            decreases self.entries@.len() - i,
        {
            if str_eq(self.entries[i].0.as_str(), key) {
                return Some(i);
            }
            i = i + 1;
        }
        None
    }

    /// The configuration for `key`, if any.
    pub fn get(&self, key: &str) -> (r: Option<&WrapperToolConfig>)
        ensures
            match r {
                Some(t) => self.model().contains_key(key@) && self.model()[key@] == t@,
                None => !self.model().contains_key(key@),
            },
    {
        proof {
            use_type_invariant(self);
        }
        match self.find(key) {
            Some(i) => {
                proof {
                    assert(self.model().contains_key(key@));
                    let j = choose|j: int| 0 <= j < self.entries@.len() && #[trigger] self.entries@[j].0@ == key@;
                    if j != i {
                        if j < i {
                            assert(self.entries@[j].0@ != self.entries@[i as int].0@);
                        } else {
                            assert(self.entries@[i as int].0@ != self.entries@[j].0@);
                        }
                    }
                }
                Some(&self.entries[i].1)
            },
            None => None,
        }
    }

    /// Sets the configuration for `key`, replacing any earlier one.
    pub fn insert(&mut self, key: String, value: WrapperToolConfig)
        ensures
            final(self).model() == old(self).model().insert(key@, value@),
    {
        proof {
            use_type_invariant(&*self);
        }
        let ghost old_entries = self.entries@;
        let ghost kv = key@;
        let ghost vv = value@;
        match self.find(key.as_str()) {
            Some(i) => {
                let mut entries: Vec<(String, WrapperToolConfig)> = Vec::new();
                std::mem::swap(&mut entries, &mut self.entries);
                entries.set(i, (key, value));
                proof {
                    assert forall|a: int, b: int|
                        0 <= a < b < entries@.len() implies (#[trigger] entries@[a]).0@ != (
                        #[trigger] entries@[b]).0@ by {
                        assert(old_entries[a].0@ != old_entries[b].0@);
                    }
                }
                self.entries = entries;
                proof {
                    let m = old(self).model().insert(kv, vv);
                    assert forall|k: Seq<char>| #[trigger] self.model().contains_key(k) == m.contains_key(k) by {
                        if m.contains_key(k) && k != kv {
                            let j = choose|j: int| 0 <= j < old_entries.len() && #[trigger] old_entries[j].0@ == k;
                            assert(self.entries@[j].0@ == k);
                        }
                        if k == kv {
                            assert(self.entries@[i as int].0@ == k);
                        }
                        if self.model().contains_key(k) {
                            let j = choose|j: int| 0 <= j < self.entries@.len() && #[trigger] self.entries@[j].0@ == k;
                            if j != i {
                                assert(old_entries[j].0@ == k);
                            }
                        }
                    }
                    assert forall|k: Seq<char>| #[trigger] self.model().contains_key(k) implies self.model()[k] == m[k] by {
                        let j = choose|j: int| 0 <= j < self.entries@.len() && #[trigger] self.entries@[j].0@ == k;
                        if k == kv {
                            if j != i {
                                if j < i {
                                    assert(self.entries@[j].0@ != self.entries@[i as int].0@);
                                } else {
                                    assert(self.entries@[i as int].0@ != self.entries@[j].0@);
                                }
                            }
                        } else {
                            assert(old_entries[j].0@ == k);
                            let j0 = choose|j0: int| 0 <= j0 < old_entries.len() && #[trigger] old_entries[j0].0@ == k;
                            if j0 != j {
                                if j0 < j {
                                    assert(old_entries[j0].0@ != old_entries[j].0@);
                                } else {
                                    assert(old_entries[j].0@ != old_entries[j0].0@);
                                }
                            }
                        }
                    }
                    assert(self.model() =~= m);
                }
            },
            None => {
                let mut entries: Vec<(String, WrapperToolConfig)> = Vec::new();
                std::mem::swap(&mut entries, &mut self.entries);
                entries.push((key, value));
                proof {
                    assert forall|a: int, b: int|
                        0 <= a < b < entries@.len() implies (#[trigger] entries@[a]).0@ != (
                        #[trigger] entries@[b]).0@ by {
                        if b == old_entries.len() {
                            assert(old_entries[a].0@ != kv);
                        } else {
                            assert(old_entries[a].0@ != old_entries[b].0@);
                        }
                    }
                }
                self.entries = entries;
                proof {
                    let m = old(self).model().insert(kv, vv);
                    let n = old_entries.len() as int;
                    assert forall|k: Seq<char>| #[trigger] self.model().contains_key(k) == m.contains_key(k) by {
                        if m.contains_key(k) && k != kv {
                            let j = choose|j: int| 0 <= j < old_entries.len() && #[trigger] old_entries[j].0@ == k;
                            assert(self.entries@[j].0@ == k);
                        }
                        if k == kv {
                            assert(self.entries@[n].0@ == k);
                        }
                        if self.model().contains_key(k) {
                            let j = choose|j: int| 0 <= j < self.entries@.len() && #[trigger] self.entries@[j].0@ == k;
                            if j != n {
                                assert(old_entries[j].0@ == k);
                            }
                        }
                    }
                    assert forall|k: Seq<char>| #[trigger] self.model().contains_key(k) implies self.model()[k] == m[k] by {
                        let j = choose|j: int| 0 <= j < self.entries@.len() && #[trigger] self.entries@[j].0@ == k;
                        if k == kv {
                            if j != n {
                                assert(old_entries[j].0@ == k);
                            }
                        } else {
                            assert(j != n);
                            assert(old_entries[j].0@ == k);
                            let j0 = choose|j0: int| 0 <= j0 < old_entries.len() && #[trigger] old_entries[j0].0@ == k;
                            if j0 != j {
                                if j0 < j {
                                    assert(old_entries[j0].0@ != old_entries[j].0@);
                                } else {
                                    assert(old_entries[j].0@ != old_entries[j0].0@);
                                }
                            }
                        }
                    }
                    assert(self.model() =~= m);
                }
            },
        }
    }
}

impl Clone for ToolTable {
    fn clone(&self) -> (r: Self) {
        proof {
            use_type_invariant(self);
        }
        let mut entries: Vec<(String, WrapperToolConfig)> = Vec::new();
        let mut i: usize = 0;
        while i < self.entries.len()
            invariant
                i <= self.entries@.len(),
                entries@.len() == i,
                forall|j: int| 0 <= j < i ==> (#[trigger] entries@[j]).0@ == self.entries@[j].0@,
                forall|a: int, b: int|
                    0 <= a < b < self.entries@.len() ==> (#[trigger] self.entries@[a]).0@ != (
                    #[trigger] self.entries@[b]).0@,
            decreases self.entries@.len() - i,
        {
            let k = self.entries[i].0.clone();
            let v = self.entries[i].1.clone();
            entries.push((k, v));
            i = i + 1;
        }
        proof {
            assert forall|a: int, b: int|
                0 <= a < b < entries@.len() implies (#[trigger] entries@[a]).0@ != (
                #[trigger] entries@[b]).0@ by {
                assert(self.entries@[a].0@ != self.entries@[b].0@);
            }
        }
        ToolTable { entries }
    }
}

/// Law: a lookup after setting a tool's configuration gives that
/// configuration, and setting one tool leaves the others as they were.
pub proof fn lemma_tool_table_get_after_insert(
    m: Map<Seq<char>, ToolModel>,
    k: Seq<char>,
    v: ToolModel,
    other: Seq<char>,
)
    requires
        other != k,
    ensures
        m.insert(k, v).contains_key(k) && m.insert(k, v)[k] == v,
        m.insert(k, v).contains_key(other) == m.contains_key(other),
        m.contains_key(other) ==> m.insert(k, v)[other] == m[other],
{
}

/// The wrapping configuration: per-tool overrides.
#[derive(Debug, Clone)]
pub struct WrappersConfig {
    /// Per-tool configuration, by program name.
    pub tools: ToolTable,
}

impl Default for WrappersConfig {
    fn default() -> (r: Self)
        ensures
            r.tools.model() == Map::<Seq<char>, ToolModel>::empty(),
    {
        WrappersConfig { tools: ToolTable::new() }
    }
}

// ---------------------------------------------------------------------------
// WrapperConfig (resolved per invocation)
// ---------------------------------------------------------------------------

/// Resolved configuration for one wrapped program.
#[derive(Debug, Clone)]
pub struct WrapperConfig {
    pub program: String,
    pub delimiter: Delimiter,
    pub check_groups: Vec<String>,
    pub display_name: String,
}

/// Built-in delimiter and check groups of the known tools.
pub open spec fn builtin_spec(name: Seq<char>) -> Option<(Seq<char>, Seq<Seq<char>>)> {
    if name == "psql"@ || name == "mysql"@ || name == "mongosh"@ || name == "mongo"@ {
        Some((";"@, seq!["database"@]))
    } else if name == "redis-cli"@ {
        Some(("\\n"@, seq!["database"@]))
    } else {
        None
    }
}

/// The built-in defaults for a known tool: its delimiter string and check
/// groups.
fn builtin_defaults(name: &str) -> (r: Option<(&'static str, Vec<String>)>)
    ensures
        match builtin_spec(name@) {
            Some((d, g)) => r matches Some(x) && x.0@ == d && views(x.1@) == g,
            None => r is None,
        },
{
    let groups = vec![owned("database")];
    proof {
        assert(views(groups@) =~= seq!["database"@]);
    }
    if str_eq(name, "psql") || str_eq(name, "mysql") || str_eq(name, "mongosh") || str_eq(
        name,
        "mongo",
    ) {
        Some((";", groups))
    } else if str_eq(name, "redis-cli") {
        Some(("\\n", groups))
    } else {
        None
    }
}

/// Name for the final component of a path, as `std::path::Path::file_name`
/// gives it (`None` when the path ends in `..` or has no components).
pub uninterp spec fn path_file_name(path: Seq<char>) -> Option<Seq<char>>;

/// `std::path::Path::file_name` of a program path, as text.
#[verifier::external_body]
fn file_name(program: &str) -> (r: Option<String>)
    ensures
        match path_file_name(program@) {
            Some(b) => r matches Some(x) && x@ == b,
            None => r is None,
        },
{
    std::path::Path::new(program).file_name().and_then(|s| s.to_str()).map(|s| s.to_string())
}

/// The name a program is known by: the final component of its path, or
/// the whole text when it has none.
pub open spec fn base_name(program: Seq<char>) -> Seq<char> {
    match path_file_name(program) {
        Some(b) => b,
        None => program,
    }
}

/// The delimiter resolved for a program: the command-line flag, then the
/// user's tool configuration, then the built-in default, then newline.
pub open spec fn resolved_delimiter(
    program: Seq<char>,
    cli: Option<Seq<char>>,
    tools: Map<Seq<char>, ToolModel>,
) -> Delimiter {
    let base = base_name(program);
    if cli is Some {
        delimiter_for(cli->0)
    } else if tools.contains_key(base) {
        delimiter_for(tools[base].delimiter)
    } else if builtin_spec(base) is Some {
        delimiter_for(builtin_spec(base).unwrap().0)
    } else {
        Delimiter::Newline
    }
}

/// The check groups resolved for a program: the user's non-empty list,
/// then the built-in groups, then none (the global setting applies).
pub open spec fn resolved_groups(program: Seq<char>, tools: Map<Seq<char>, ToolModel>) -> Seq<
    Seq<char>,
> {
    let base = base_name(program);
    if tools.contains_key(base) && tools[base].check_groups.len() > 0 {
        tools[base].check_groups
    } else if builtin_spec(base) is Some {
        builtin_spec(base).unwrap().1
    } else {
        Seq::empty()
    }
}

/// Law: with no delimiter flag and no user entry for the tool, the
/// database shells `psql`, `mysql`, `mongosh` and `mongo` (wherever they
/// are installed) split statements at `;` and use the `database` checks;
/// `redis-cli` splits at newlines and uses the `database` checks; any other
/// program splits at newlines with no specific checks.
pub proof fn lemma_known_tool_defaults(program: Seq<char>, tools: Map<Seq<char>, ToolModel>)
    requires
        !tools.contains_key(base_name(program)),
    ensures
        (base_name(program) == "psql"@ || base_name(program) == "mysql"@ || base_name(program)
            == "mongosh"@ || base_name(program) == "mongo"@) ==> resolved_delimiter(program, None, tools)
            == Delimiter::Char(';') && resolved_groups(program, tools) == seq!["database"@],
        base_name(program) == "redis-cli"@ ==> resolved_delimiter(program, None, tools)
            == Delimiter::Newline && resolved_groups(program, tools) == seq!["database"@],
        !(base_name(program) == "psql"@ || base_name(program) == "mysql"@ || base_name(program)
            == "mongosh"@ || base_name(program) == "mongo"@ || base_name(program) == "redis-cli"@)
            ==> resolved_delimiter(program, None, tools) == Delimiter::Newline && resolved_groups(
            program,
            tools,
        ) == Seq::<Seq<char>>::empty(),
{
    reveal_strlit(";");
    reveal_strlit("\\n");
    reveal_strlit("psql");
    reveal_strlit("mysql");
    reveal_strlit("mongosh");
    reveal_strlit("mongo");
    reveal_strlit("redis-cli");
    reveal_strlit("database");
    assert(";"@ =~= seq![';']);
    assert("\\n"@ =~= seq!['\\', 'n']);
    assert(seq![';'] != seq!['\\', 'n']);
    assert(seq![';'] != seq!['\n']) by {
        assert(seq![';'][0] != seq!['\n'][0]);
    }
    assert(delimiter_for(";"@) == Delimiter::Char(';'));
    assert(delimiter_for("\\n"@) == Delimiter::Newline);
    if base_name(program) == "redis-cli"@ {
        assert("redis-cli"@.len() == 9);
        assert(builtin_spec("redis-cli"@) == Some(("\\n"@, seq!["database"@])));
    }
}

/// Law: the command-line delimiter beats everything; without it, a user
/// entry for the tool beats the built-in defaults, and its check groups do
/// too unless it lists none.
pub proof fn lemma_resolution_priority(
    program: Seq<char>,
    cli: Seq<char>,
    tools: Map<Seq<char>, ToolModel>,
)
    ensures
        resolved_delimiter(program, Some(cli), tools) == delimiter_for(cli),
        tools.contains_key(base_name(program)) ==> resolved_delimiter(program, None, tools)
            == delimiter_for(tools[base_name(program)].delimiter),
        tools.contains_key(base_name(program)) && tools[base_name(program)].check_groups.len() > 0
            ==> resolved_groups(program, tools) == tools[base_name(program)].check_groups,
        !(tools.contains_key(base_name(program)) && tools[base_name(program)].check_groups.len()
            > 0) ==> resolved_groups(program, tools) == resolved_groups(
            program,
            tools.remove(base_name(program)),
        ),
{
}

/// Law: a delimiter setting of `\n` (escaped or literal) means newline,
/// any other single ASCII character is that character, and anything else
/// falls back to `;`.
pub proof fn lemma_delimiter_setting(s: Seq<char>)
    ensures
        s == seq!['\\', 'n'] ==> delimiter_for(s) == Delimiter::Newline,
        s == seq!['\n'] ==> delimiter_for(s) == Delimiter::Newline,
        s.len() == 1 && s[0] != '\n' && (s[0] as u32) < 0x80 ==> delimiter_for(s) == Delimiter::Char(
            s[0],
        ),
        !(s.len() == 1 && (s[0] as u32) < 0x80) && s != seq!['\\', 'n'] ==> delimiter_for(s)
            == Delimiter::Char(';'),
{
    if s.len() == 1 && s[0] != '\n' {
        assert(s != seq!['\n']) by {
            assert(seq!['\n'][0] == '\n');
        }
        assert(s != seq!['\\', 'n']);
    }
}

fn copy_strings(v: &Vec<String>) -> (r: Vec<String>)
    ensures
        views(r@) == views(v@),
{
    let mut out: Vec<String> = Vec::new();
    let mut i: usize = 0;
    while i < v.len()
        invariant
            i <= v@.len(),
            views(out@) == views(v@.subrange(0, i as int)),
        decreases v@.len() - i,
    {
        let ghost prev = out@;
        let x = v[i].clone();
        out.push(x);
        proof {
            assert(v@.subrange(0, i + 1) =~= v@.subrange(0, i as int).push(v@[i as int]));
            assert(views(out@) =~= views(prev).push(x@));
            assert(views(v@.subrange(0, i + 1)) =~= views(v@.subrange(0, i as int)).push(v@[i as int]@));
        }
        i = i + 1;
    }
    proof {
        assert(v@.subrange(0, v@.len() as int) =~= v@);
    }
    out
}

impl WrapperConfig {
    /// Resolves the wrapper configuration for a program.
    ///
    /// Priority: command-line delimiter > user config > built-in defaults >
    /// generic fallback (newline, no specific groups).
    pub fn resolve(program: &str, cli_delimiter: Option<&str>, user_config: &WrappersConfig) -> (r: Self)
        ensures
            r.program@ == program@,
            r.display_name@ == base_name(program@),
            r.delimiter == resolved_delimiter(
                program@,
                match cli_delimiter {
                    Some(d) => Some(d@),
                    None => None,
                },
                user_config.tools.model(),
            ),
            views(r.check_groups@) == resolved_groups(program@, user_config.tools.model()),
    {
        let base: String = match file_name(program) {
            Some(b) => b,
            None => owned(program),
        };
        let user_tool = user_config.tools.get(base.as_str());
        let builtin = builtin_defaults(base.as_str());
        let delimiter = match cli_delimiter {
            Some(d) => Delimiter::from_str_config(d),
            None => match user_tool {
                Some(tool) => Delimiter::from_str_config(tool.delimiter.as_str()),
                None => match &builtin {
                    Some((d, _)) => Delimiter::from_str_config(d),
                    None => Delimiter::Newline,
                },
            },
        };
        let check_groups = match user_tool {
            Some(tool) if tool.check_groups.len() > 0 => copy_strings(&tool.check_groups),
            _ => match builtin {
                Some((_, groups)) => groups,
                None => Vec::new(),
            },
        };
        proof {
            if let Some(tool) = user_tool {
                assert(views(tool.check_groups@).len() == tool.check_groups@.len());
            }
            if check_groups@.len() == 0 {
                assert(views(check_groups@) =~= Seq::<Seq<char>>::empty());
            }
        }
        WrapperConfig { program: owned(program), delimiter, check_groups, display_name: base }
    }
}

// ---------------------------------------------------------------------------
// InputBuffer: quote-aware delimiter detection
// ---------------------------------------------------------------------------

/// Quote and escape state of the statement being typed.
#[derive(Debug, Clone, Copy, PartialEq, Eq, Structural)]
pub enum QuoteState {
    Normal,
    SingleQuoted,
    DoubleQuoted,
    /// The next byte is escaped (after `\` outside quotes).
    EscapedNormal,
    /// The next byte is escaped (after `\` inside double quotes).
    EscapedDouble,
}

/// Result of feeding a byte to the input buffer.
#[derive(Debug, Clone, PartialEq, Eq)]
pub enum BufferResult {
    /// The byte was buffered; no statement is complete yet.
    Buffered,
    /// A complete statement (the delimiter was found outside quotes).
    Statement(String),
}

/// One step of the statement scanner on byte `b`, with trigger byte `d`:
/// the new state, the new buffer, and the completed statement if any.
pub open spec fn feed_step(st: QuoteState, buf: Seq<u8>, d: u8, b: u8) -> (
    QuoteState,
    Seq<u8>,
    Option<Seq<u8>>,
) {
    match st {
        QuoteState::EscapedNormal => (QuoteState::Normal, buf.push(b), None),
        QuoteState::EscapedDouble => (QuoteState::DoubleQuoted, buf.push(b), None),
        QuoteState::SingleQuoted => (
            if b == 39u8 {
                QuoteState::Normal
            } else {
                QuoteState::SingleQuoted
            },
            buf.push(b),
            None,
        ),
        QuoteState::DoubleQuoted => (
            if b == 34u8 {
                QuoteState::Normal
            } else if b == 92u8 {
                QuoteState::EscapedDouble
            } else {
                QuoteState::DoubleQuoted
            },
            buf.push(b),
            None,
        ),
        QuoteState::Normal => {
            if b == 92u8 {
                (QuoteState::EscapedNormal, buf.push(b), None)
            } else if b == 39u8 {
                (QuoteState::SingleQuoted, buf.push(b), None)
            } else if b == 34u8 {
                (QuoteState::DoubleQuoted, buf.push(b), None)
            } else if b == d {
                (QuoteState::Normal, Seq::empty(), Some(buf))
            } else {
                (QuoteState::Normal, buf.push(b), None)
            }
        },
    }
}

/// Name for the text `String::from_utf8_lossy` makes of some bytes.
pub uninterp spec fn utf8_lossy(bytes: Seq<u8>) -> Seq<char>;

/// `String::from_utf8_lossy`, owned. Claims, as documented, that valid
/// UTF-8 is decoded as is.
#[verifier::external_body]
fn lossy_string(bytes: &[u8]) -> (r: String)
    ensures
        r@ == utf8_lossy(bytes@),
        vstd::utf8::valid_utf8(bytes@) ==> r@ == vstd::utf8::decode_utf8(bytes@),
{
    String::from_utf8_lossy(bytes).into_owned()
}

/// Accumulates input bytes and detects statement boundaries, respecting
/// single/double quotes and backslash escapes.
#[derive(Debug)]
pub struct InputBuffer {
    buf: Vec<u8>,
    state: QuoteState,
    delimiter: Delimiter,
}

impl InputBuffer {
    /// Bytes of the statement typed so far.
    pub closed spec fn buffered(&self) -> Seq<u8> {
        self.buf@
    }

    /// Current quote/escape state.
    pub closed spec fn quote_state(&self) -> QuoteState {
        self.state
    }

    /// The delimiter this buffer splits on.
    pub closed spec fn delim(&self) -> Delimiter {
        self.delimiter
    }

    /// An empty buffer with the given delimiter.
    pub fn new(delimiter: Delimiter) -> (r: Self)
        ensures
            r.buffered() == Seq::<u8>::empty(),
            r.quote_state() == QuoteState::Normal,
            r.delim() == delimiter,
    {
        InputBuffer { buf: Vec::with_capacity(256), state: QuoteState::Normal, delimiter }
    }

    /// Feeds one byte. Returns `Statement(text)` when the delimiter is found
    /// outside quotes, consuming the buffer up to (not including) the
    /// delimiter byte.
    pub fn feed(&mut self, byte: u8) -> (r: BufferResult)
        ensures
            ({
                let (st, b, out) = feed_step(
                    old(self).quote_state(),
                    old(self).buffered(),
                    trigger_of(old(self).delim()),
                    byte,
                );
                &&& final(self).quote_state() == st
                &&& final(self).buffered() == b
                &&& final(self).delim() == old(self).delim()
                &&& match out {
                    Some(stmt) => r matches BufferResult::Statement(s) && s@ == utf8_lossy(stmt)
                        && (vstd::utf8::valid_utf8(stmt) ==> s@ == vstd::utf8::decode_utf8(stmt)),
                    None => r == BufferResult::Buffered,
                }
            }),
    {
        match self.state {
            QuoteState::EscapedNormal => {
                self.buf.push(byte);
                self.state = QuoteState::Normal;
                BufferResult::Buffered
            },
            QuoteState::EscapedDouble => {
                self.buf.push(byte);
                self.state = QuoteState::DoubleQuoted;
                BufferResult::Buffered
            },
            QuoteState::SingleQuoted => {
                self.buf.push(byte);
                if byte == 39u8 {
                    self.state = QuoteState::Normal;
                }
                BufferResult::Buffered
            },
            QuoteState::DoubleQuoted => {
                self.buf.push(byte);
                if byte == 34u8 {
                    self.state = QuoteState::Normal;
                } else if byte == 92u8 {
                    self.state = QuoteState::EscapedDouble;
                }
                BufferResult::Buffered
            },
            QuoteState::Normal => {
                if byte == 92u8 {
                    self.buf.push(byte);
                    self.state = QuoteState::EscapedNormal;
                    return BufferResult::Buffered;
                }
                if byte == 39u8 {
                    self.buf.push(byte);
                    self.state = QuoteState::SingleQuoted;
                    return BufferResult::Buffered;
                }
                if byte == 34u8 {
                    self.buf.push(byte);
                    self.state = QuoteState::DoubleQuoted;
                    return BufferResult::Buffered;
                }
                if byte == self.delimiter.trigger_byte() {
                    let stmt = lossy_string(self.buf.as_slice());
                    self.buf.clear();
                    self.state = QuoteState::Normal;
                    return BufferResult::Statement(stmt);
                }
                self.buf.push(byte);
                BufferResult::Buffered
            },
        }
    }

    /// Clears the buffer and the quote state.
    pub fn reset(&mut self)
        ensures
            final(self).buffered() == Seq::<u8>::empty(),
            final(self).quote_state() == QuoteState::Normal,
            final(self).delim() == old(self).delim(),
    {
        self.buf.clear();
        self.state = QuoteState::Normal;
    }
}

/// Feeding a run of bytes: the final state and buffer, and the statements
/// completed along the way, in order.
pub open spec fn feed_all(st: QuoteState, buf: Seq<u8>, d: u8, bytes: Seq<u8>) -> (
    QuoteState,
    Seq<u8>,
    Seq<Seq<u8>>,
)
    decreases bytes.len(),
{
    if bytes.len() == 0 {
        (st, buf, Seq::empty())
    } else {
        let (st1, buf1, out1) = feed_all(st, buf, d, bytes.drop_last());
        let (st2, buf2, o) = feed_step(st1, buf1, d, bytes.last());
        (
            st2,
            buf2,
            match o {
                Some(x) => out1.push(x),
                None => out1,
            },
        )
    }
}

/// A byte that is neither a quote, a backslash, nor the trigger byte.
pub open spec fn plain_byte(b: u8, d: u8) -> bool {
    b != 39u8 && b != 34u8 && b != 92u8 && b != d
}

/// Law: plain bytes typed outside quotes accumulate unchanged, and the
/// delimiter then completes them as one statement, leaving the buffer empty.
pub proof fn lemma_plain_text_is_one_statement(buf: Seq<u8>, d: u8, w: Seq<u8>)
    requires
        d != 39u8 && d != 34u8 && d != 92u8,
        forall|k: int| 0 <= k < w.len() ==> plain_byte(#[trigger] w[k], d),
    ensures
        feed_all(QuoteState::Normal, buf, d, w) == (QuoteState::Normal, buf + w, Seq::<Seq<u8>>::empty()),
        feed_all(QuoteState::Normal, buf, d, w.push(d)) == (
            QuoteState::Normal,
            Seq::<u8>::empty(),
            seq![buf + w],
        ),
    decreases w.len(),
{
    if w.len() > 0 {
        lemma_plain_text_is_one_statement(buf, d, w.drop_last());
        assert(buf + w.drop_last().push(w.last()) =~= buf + w);
        assert(w.drop_last().push(w.last()) =~= w);
    } else {
        assert(buf + w =~= buf);
    }
    assert(feed_all(QuoteState::Normal, buf, d, w) == (QuoteState::Normal, buf + w, Seq::<Seq<u8>>::empty()));
    let wd = w.push(d);
    assert(wd.drop_last() =~= w);
    assert(wd.last() == d);
    assert(feed_step(QuoteState::Normal, buf + w, d, d) == (QuoteState::Normal, Seq::<u8>::empty(), Some(buf + w)));
    assert(Seq::<Seq<u8>>::empty().push(buf + w) =~= seq![buf + w]);
}

/// Law: while inside quotes or right after a backslash, no byte (the
/// delimiter included) completes a statement, and nothing is dropped.
pub proof fn lemma_quoted_bytes_never_split(st: QuoteState, buf: Seq<u8>, d: u8, b: u8)
    requires
        st != QuoteState::Normal,
    ensures
        feed_step(st, buf, d, b).2 is None,
        feed_step(st, buf, d, b).1 == buf.push(b),
{
}

/// Completed statements, each followed by the delimiter byte that ended
/// it, one after the other.
pub open spec fn joined(outs: Seq<Seq<u8>>, d: u8) -> Seq<u8>
    decreases outs.len(),
{
    if outs.len() == 0 {
        Seq::empty()
    } else {
        joined(outs.drop_last(), d) + outs.last().push(d)
    }
}

/// A byte that opens or closes a quote, or escapes the next one.
pub open spec fn quoting_byte(b: u8) -> bool {
    b == 39u8 || b == 34u8 || b == 92u8
}

/// Law: whatever is typed (quotes and backslashes included), no byte is
/// lost or changed: the statements completed, each with the delimiter
/// byte that ended it, followed by what stays buffered, are exactly the
/// bytes buffered before and the bytes fed. So each statement is every
/// byte fed since the previous one (or since the buffer was empty), the
/// delimiter excluded. And typing no quote or backslash from the plain
/// state stays in the plain state, where the delimiter completes a
/// statement.
pub proof fn lemma_statements_partition_input(st: QuoteState, buf: Seq<u8>, d: u8, bytes: Seq<u8>)
    ensures
        ({
            let (st2, buf2, outs) = feed_all(st, buf, d, bytes);
            joined(outs, d) + buf2 == buf + bytes
        }),
        st == QuoteState::Normal && (forall|k: int| 0 <= k < bytes.len() ==> !quoting_byte(
            #[trigger] bytes[k],
        )) ==> feed_all(st, buf, d, bytes).0 == QuoteState::Normal,
    decreases bytes.len(),
{
    if bytes.len() == 0 {
        assert(Seq::<u8>::empty() + buf =~= buf + bytes);
    } else {
        let init = bytes.drop_last();
        let b = bytes.last();
        lemma_statements_partition_input(st, buf, d, init);
        let (st1, buf1, out1) = feed_all(st, buf, d, init);
        let (st2, buf2, o) = feed_step(st1, buf1, d, b);
        assert(init.push(b) =~= bytes);
        match o {
            Some(x) => {
                assert(x == buf1 && b == d && buf2 == Seq::<u8>::empty());
                assert(out1.push(x).drop_last() =~= out1);
                assert(joined(out1.push(x), d) == joined(out1, d) + buf1.push(d));
                assert(joined(out1, d) + buf1.push(d) + buf2 =~= (joined(out1, d) + buf1).push(d));
                assert((buf + init).push(d) =~= buf + bytes);
            },
            None => {
                assert(buf2 == buf1.push(b));
                assert(joined(out1, d) + buf1.push(b) =~= (joined(out1, d) + buf1).push(b));
                assert((buf + init).push(b) =~= buf + bytes);
            },
        }
        if st == QuoteState::Normal && (forall|k: int| 0 <= k < bytes.len() ==> !quoting_byte(
            #[trigger] bytes[k],
        )) {
            assert forall|k: int| 0 <= k < init.len() implies !quoting_byte(#[trigger] init[k]) by {
                assert(init[k] == bytes[k]);
            }
            assert(!quoting_byte(bytes[bytes.len() - 1]));
        }
    }
}

// ---------------------------------------------------------------------------
// Statement handling
// ---------------------------------------------------------------------------

/// Outcome after analyzing a statement.
#[derive(Debug, Clone, Copy, PartialEq, Eq, Structural)]
pub enum StatementAction {
    /// The statement is safe or the user passed the challenge: forward it.
    Forward,
    /// The statement was blocked: cancel it.
    Block,
}

/// How the user answered a challenge.
#[derive(Debug, Clone, Copy, PartialEq, Eq, Structural)]
pub enum ChallengeResult {
    Passed,
    Denied,
}

/// What handling a statement does next. Handling fails open: where the
/// analysis or the challenge fails, the statement is forwarded.
#[derive(Debug, PartialEq, Eq)]
pub enum StatementStep {
    /// Analyse this statement (the one typed, trimmed) against the checks
    /// and the settings, and hand back how many checks stay active.
    Analyze(String),
    /// Record the matches, challenge the user on them, and hand back the
    /// answer.
    Challenge,
    /// Nothing is left to ask: do this with the statement.
    Done(StatementAction),
}

/// The first step for a statement: an empty one (after trimming) is
/// forwarded as it is; any other is analysed, trimmed.
pub fn start_statement(statement: &str) -> (r: StatementStep)
    ensures
        trim(statement@).len() == 0 ==> r == StatementStep::Done(StatementAction::Forward),
        trim(statement@).len() > 0 ==> (r matches StatementStep::Analyze(t) && t@ == trim(
            statement@,
        )),
{
    let t = trimmed_string(statement);
    if t.as_str().is_empty() {
        StatementStep::Done(StatementAction::Forward)
    } else {
        StatementStep::Analyze(t)
    }
}

/// The step after the analysis, given the number of checks that stay
/// active (`None` when the analysis failed): a failed analysis, or one
/// that leaves no check active, forwards the statement; otherwise the
/// user is challenged.
pub fn after_analysis(active: Option<usize>) -> (r: StatementStep)
    ensures
        r == match active {
            Some(n) if n > 0 => StatementStep::Challenge,
            _ => StatementStep::Done(StatementAction::Forward),
        },
{
    match active {
        Some(n) if n > 0 => StatementStep::Challenge,
        _ => StatementStep::Done(StatementAction::Forward),
    }
}

/// What is done with a challenged statement, given the answer (`None`
/// when the challenge itself failed): forwarded unless the user was
/// denied.
pub fn after_challenge(result: Option<ChallengeResult>) -> (r: StatementAction)
    ensures
        r == match result {
            Some(ChallengeResult::Denied) => StatementAction::Block,
            _ => StatementAction::Forward,
        },
{
    match result {
        Some(ChallengeResult::Denied) => StatementAction::Block,
        _ => StatementAction::Forward,
    }
}

/// Control bytes forwarded to the child at once, never buffered.
pub open spec fn control_passthrough(b: u8) -> bool {
    (0x01 <= b <= 0x06) || b == 0x09 || b == 13 || (14 <= b <= 16) || (0x12 <= b <= 0x17)
        || b == 0x1A || b == 0x1B || b == 0x7F
}

/// True for control bytes that are forwarded immediately without being fed
/// to the input buffer (Ctrl-A..F, Tab, CR, Ctrl-N..P, Ctrl-R..W, Ctrl-Z,
/// ESC, DEL).
pub fn is_control_passthrough(byte: u8) -> (r: bool)
    ensures
        r == control_passthrough(byte),
{
    (0x01 <= byte && byte <= 0x06) || byte == 0x09 || byte == 13 || (14 <= byte && byte
        <= 16) || (0x12 <= byte && byte <= 0x17) || byte == 0x1A || byte == 0x1B || byte == 0x7F
}

/// What the proxy does with one byte the user typed.
#[derive(Debug, Clone, PartialEq, Eq)]
pub enum ByteAction {
    /// Send this byte to the child.
    Forward(u8),
    /// A statement is complete (its delimiter withheld): have it analysed,
    /// then send the child [`statement_reply`] of the verdict.
    Analyse(String),
}

/// One byte from the user, in the proxy's loop: control bytes go to the
/// child at once (Ctrl-C and Ctrl-D also clear the statement being typed);
/// other bytes are fed to the buffer and echoed to the child, except the
/// delimiter that completes a statement, which is held back for analysis.
pub fn on_input_byte(buf: &mut InputBuffer, byte: u8) -> (r: ByteAction)
    ensures
        final(buf).delim() == old(buf).delim(),
        control_passthrough(byte) ==> {
            &&& r == ByteAction::Forward(byte)
            &&& if byte == 3 || byte == 4 {
                final(buf).buffered() == Seq::<u8>::empty() && final(buf).quote_state()
                    == QuoteState::Normal
            } else {
                final(buf).buffered() == old(buf).buffered() && final(buf).quote_state()
                    == old(buf).quote_state()
            }
        },
        !control_passthrough(byte) ==> ({
            let (st, b, out) = feed_step(
                old(buf).quote_state(),
                old(buf).buffered(),
                trigger_of(old(buf).delim()),
                byte,
            );
            &&& final(buf).quote_state() == st
            &&& final(buf).buffered() == b
            &&& match out {
                Some(stmt) => r matches ByteAction::Analyse(s) && s@ == utf8_lossy(stmt) && (
                vstd::utf8::valid_utf8(stmt) ==> s@ == vstd::utf8::decode_utf8(stmt)),
                None => r == ByteAction::Forward(byte),
            }
        }),
{
    if is_control_passthrough(byte) {
        if byte == 3 || byte == 4 {
            buf.reset();
        }
        return ByteAction::Forward(byte);
    }
    match buf.feed(byte) {
        BufferResult::Buffered => ByteAction::Forward(byte),
        BufferResult::Statement(s) => ByteAction::Analyse(s),
    }
}

/// The byte sent to the child once a statement's verdict is known: its
/// delimiter when it may run, Ctrl-C to cancel it when blocked.
pub fn statement_reply(delimiter: Delimiter, action: StatementAction) -> (r: u8)
    ensures
        r == match action {
            StatementAction::Forward => trigger_of(delimiter),
            StatementAction::Block => 3u8,
        },
{
    match action {
        StatementAction::Forward => delimiter.trigger_byte(),
        StatementAction::Block => 3,
    }
}

} // verus!
