//! The configuration: a YAML mapping read into plain values, with typed
//! lookups and their documented fallbacks.

use crate::cmdline::string_of;
use vstd::prelude::*;
use yaml_rust::{ScanError, Yaml, YamlLoader};

verus! {

#[verifier::external_type_specification]
#[verifier::external_body]
pub struct ExYaml(Yaml);

#[verifier::external_type_specification]
#[verifier::external_body]
pub struct ExScanError(ScanError);

/// A YAML node as plain values. Numbers with a fraction are kept as written;
/// aliases and nulls are `Other`.
#[derive(Debug)]
pub enum YamlTree {
    Real(String),
    Integer(i64),
    Text(String),
    Boolean(bool),
    Array(Vec<YamlTree>),
    /// A mapping's entries, in their order of insertion.
    Hash(Vec<(YamlTree, YamlTree)>),
    Other,
}

/// Whether the text is a well-formed YAML stream.
pub uninterp spec fn yaml_parses(s: Seq<char>) -> bool;

/// The documents of a well-formed YAML stream, in order.
pub uninterp spec fn yaml_docs(s: Seq<char>) -> Seq<YamlTree>;

/// Relies on the variants of `yaml_rust::Yaml`: one node, its children
/// converted likewise, a mapping's entries in their order of insertion.
#[verifier::external_body]
fn tree_of(y: Yaml) -> (r: YamlTree) {
    match y {
        Yaml::Real(s) => YamlTree::Real(s),
        Yaml::Integer(i) => YamlTree::Integer(i),
        Yaml::String(s) => YamlTree::Text(s),
        Yaml::Boolean(b) => YamlTree::Boolean(b),
        Yaml::Array(a) => YamlTree::Array(a.into_iter().map(tree_of).collect()),
        Yaml::Hash(h) => YamlTree::Hash(h.into_iter().map(|(k, v)| (tree_of(k), tree_of(v))).collect()),
        _ => YamlTree::Other,
    }
}

/// Relies on `YamlLoader::load_from_str`: it parses the text into its
/// documents, or fails with the scanner's error; the result depends on the
/// text alone.
#[verifier::external_body]
fn parse_documents(s: &str) -> (r: Result<Vec<YamlTree>, ScanError>)
    ensures
        r is Ok <==> yaml_parses(s@),
        r matches Ok(d) ==> d@ == yaml_docs(s@),
{
    YamlLoader::load_from_str(s).map(|d| d.into_iter().map(tree_of).collect())
}

/// The character of a decimal digit.
pub open spec fn digit_char(d: nat) -> char {
    if d == 0 { '0' }
    else if d == 1 { '1' }
    else if d == 2 { '2' }
    else if d == 3 { '3' }
    else if d == 4 { '4' }
    else if d == 5 { '5' }
    else if d == 6 { '6' }
    else if d == 7 { '7' }
    else if d == 8 { '8' }
    else { '9' }
}

/// The decimal digits of a natural number, most significant first.
pub open spec fn digits(n: nat) -> Seq<char>
    decreases n,
{
    if n < 10 {
        seq![digit_char(n)]
    } else {
        digits(n / 10).push(digit_char(n % 10))
    }
}

/// An integer written in decimal, with a leading `-` when negative.
pub open spec fn decimal_text(i: int) -> Seq<char> {
    if i < 0 {
        seq!['-'] + digits((-i) as nat)
    } else {
        digits(i as nat)
    }
}

fn digit(d: u64) -> (r: char)
    requires
        d < 10,
    ensures
        r == digit_char(d as nat),
{
    if d == 0 { '0' }
    else if d == 1 { '1' }
    else if d == 2 { '2' }
    else if d == 3 { '3' }
    else if d == 4 { '4' }
    else if d == 5 { '5' }
    else if d == 6 { '6' }
    else if d == 7 { '7' }
    else if d == 8 { '8' }
    else { '9' }
}

/// An integer written in decimal.
pub fn int_text(i: i64) -> (r: String)
    ensures
        r@ == decimal_text(i as int),
{
    let negative = i < 0;
    let mut n: u64 = if negative { (0i128 - i as i128) as u64 } else { i as u64 };
    let ghost whole = if negative { (-(i as int)) as nat } else { i as nat };
    assert(n as nat == whole);
    // The low digits, least significant first.
    let mut low: Vec<char> = Vec::new();
    while n >= 10
        invariant
            digits(whole) == digits(n as nat) + low@.reverse(),
        decreases n,
    {
        let d = digit(n % 10);
        let ghost before = low@;
        low.push(d);
        assert(low@.reverse() =~= seq![d] + before.reverse());
        assert(digits(n as nat) == digits((n / 10) as nat).push(d));
        assert(digits(whole) =~= digits((n / 10) as nat) + low@.reverse());
        n = n / 10;
    }
    let mut out: Vec<char> = Vec::new();
    if negative {
        out.push('-');
    }
    out.push(digit(n));
    let ghost head = out@;
    assert(head == (if negative { seq!['-'] } else { seq![] }) + digits(n as nat));
    let mut k: usize = low.len();
    while k > 0
        invariant
            k <= low@.len(),
            out@ == head + low@.subrange(k as int, low@.len() as int).reverse(),
        decreases k,
    {
        k = k - 1;
        let ghost before = out@;
        out.push(low[k]);
        assert(low@.subrange(k as int, low@.len() as int).reverse() =~= low@.subrange(
            k + 1,
            low@.len() as int,
        ).reverse().push(low@[k as int]));
    }
    assert(low@.subrange(0, low@.len() as int) =~= low@);
    assert(out@ =~= decimal_text(i as int));
    string_of(&out)
}

/// Why a configuration was refused.
#[derive(Debug)]
pub enum ConfigError {
    Yaml(ScanError),
    /// There is no document, or the first one is not a mapping.
    Invalid,
}

/// The configuration: the entries of the first document's top-level mapping
/// whose key is text, in their order.
#[derive(Debug)]
pub struct Config {
    pub entries: Vec<(String, YamlTree)>,
}

/// The entries whose key is text, in order, with their values as they are.
pub open spec fn text_entries(pairs: Seq<(YamlTree, YamlTree)>) -> Seq<(String, YamlTree)>
    decreases pairs.len(),
{
    if pairs.len() == 0 {
        seq![]
    } else {
        let rest = text_entries(pairs.drop_first());
        match pairs[0].0 {
            YamlTree::Text(k) => seq![(k, pairs[0].1)] + rest,
            _ => rest,
        }
    }
}

/// The entries that documents configure: those of the first document when
/// it is a mapping; none when there is no document or it is another node.
pub open spec fn config_of(docs: Seq<YamlTree>) -> Option<Seq<(String, YamlTree)>> {
    if docs.len() > 0 {
        match docs[0] {
            YamlTree::Hash(pairs) => Some(text_entries(pairs@)),
            _ => None,
        }
    } else {
        None
    }
}

/// The value of the first entry with the given key.
pub open spec fn lookup(entries: Seq<(String, YamlTree)>, key: Seq<char>) -> Option<YamlTree>
    decreases entries.len(),
{
    if entries.len() == 0 {
        None
    } else if entries[0].0@ == key {
        Some(entries[0].1)
    } else {
        lookup(entries.drop_first(), key)
    }
}

pub open spec fn bool_of(v: Option<YamlTree>) -> Option<bool> {
    match v {
        Some(YamlTree::Boolean(b)) => Some(b),
        _ => None,
    }
}

pub open spec fn text_of(v: Option<YamlTree>) -> Option<Seq<char>> {
    match v {
        Some(YamlTree::Text(s)) => Some(s@),
        _ => None,
    }
}

/// The text that a list element contributes to a list of strings.
pub open spec fn scalar_text(s: YamlTree) -> Option<Seq<char>> {
    match s {
        YamlTree::Text(t) => Some(t@),
        YamlTree::Integer(i) => Some(decimal_text(i as int)),
        YamlTree::Real(t) => Some(t@),
        _ => None,
    }
}

/// The texts of the list elements that have one, in order.
pub open spec fn scalar_texts(items: Seq<YamlTree>) -> Seq<Seq<char>>
    decreases items.len(),
{
    if items.len() == 0 {
        seq![]
    } else {
        let prev = scalar_texts(items.drop_last());
        match scalar_text(items.last()) {
            Some(t) => prev.push(t),
            None => prev,
        }
    }
}

/// A single text reads as a list of one; a list keeps its texts.
pub open spec fn text_list_of(v: Option<YamlTree>) -> Option<Seq<Seq<char>>> {
    match v {
        Some(YamlTree::Text(s)) => Some(seq![s@]),
        Some(YamlTree::Array(items)) => Some(scalar_texts(items@)),
        _ => None,
    }
}

/// The views of a sequence of strings.
pub open spec fn texts(v: Seq<String>) -> Seq<Seq<char>> {
    v.map_values(|s: String| s@)
}

pub open spec fn opt_texts(v: Option<Vec<String>>) -> Option<Seq<Seq<char>>> {
    match v {
        Some(v) => Some(texts(v@)),
        None => None,
    }
}

pub open spec fn opt_text(v: Option<&str>) -> Option<Seq<char>> {
    match v {
        Some(s) => Some(s@),
        None => None,
    }
}

pub open spec fn text_or(v: Option<YamlTree>, d: Seq<char>) -> Seq<char> {
    match text_of(v) {
        Some(t) => t,
        None => d,
    }
}

pub open spec fn bool_or(v: Option<YamlTree>, d: bool) -> bool {
    match bool_of(v) {
        Some(b) => b,
        None => d,
    }
}

pub open spec fn list_or(v: Option<YamlTree>, d: Seq<Seq<char>>) -> Seq<Seq<char>> {
    match text_list_of(v) {
        Some(l) => l,
        None => d,
    }
}

impl Config {
    /// The entries' model: the value of each key is its first entry's.
    pub open spec fn value_spec(&self, key: Seq<char>) -> Option<YamlTree> {
        lookup(self.entries@, key)
    }

    /// Builds the configuration from a stream's documents: the first must be
    /// a mapping, whose entries with a text key are kept in order.
    pub fn from_documents(docs: Vec<YamlTree>) -> (r: Result<Config, ConfigError>)
        ensures
            match config_of(docs@) {
                Some(es) => r matches Ok(c) && c.entries@ == es,
                None => r matches Err(ConfigError::Invalid),
            },
    {
        let mut docs = docs;
        if docs.len() == 0 {
            return Err(ConfigError::Invalid);
        }
        let first = docs.remove(0);
        let mut pairs = match first {
            YamlTree::Hash(h) => h,
            _ => return Err(ConfigError::Invalid),
        };
        let ghost all = text_entries(pairs@);
        let mut entries: Vec<(String, YamlTree)> = Vec::new();
        assert(entries@ + text_entries(pairs@) =~= all);
        while pairs.len() > 0
            invariant
                entries@ + text_entries(pairs@) == all,
            decreases pairs.len(),
        {
            let ghost before = pairs@;
            let (k, v) = pairs.remove(0);
            assert(pairs@ == before.drop_first());
            match k {
                YamlTree::Text(key) => {
                    let ghost e = entries@;
                    entries.push((key, v));
                    assert(entries@ + text_entries(pairs@) =~= e + text_entries(before));
                },
                _ => {},
            }
        }
        assert(entries@ =~= all);
        Ok(Config { entries })
    }

    /// Reads a configuration from YAML text: a text that does not parse is a
    /// `Yaml` error; otherwise the result is that of its documents.
    pub fn from_str(s: &str) -> (r: Result<Config, ConfigError>)
        ensures
            !yaml_parses(s@) <==> r matches Err(ConfigError::Yaml(_)),
            yaml_parses(s@) ==> match config_of(yaml_docs(s@)) {
                Some(es) => r matches Ok(c) && c.entries@ == es,
                None => r matches Err(ConfigError::Invalid),
            },
    {
        match parse_documents(s) {
            Ok(docs) => Self::from_documents(docs),
            Err(e) => Err(ConfigError::Yaml(e)),
        }
    }

    /// The value of a key.
    pub fn get(&self, key: &str) -> (r: Option<&YamlTree>)
        ensures
            match r {
                Some(v) => self.value_spec(key@) == Some(*v),
                None => self.value_spec(key@) is None,
            },
    {
        let k = key.to_owned();
        let mut i: usize = 0;
        assert(self.entries@.subrange(0, self.entries@.len() as int) =~= self.entries@);
        while i < self.entries.len()
            invariant
                0 <= i <= self.entries@.len(),
                k@ == key@,
                lookup(self.entries@, key@) == lookup(self.entries@.subrange(i as int, self.entries@.len() as int), key@),
            decreases self.entries@.len() - i,
        {
            let e = &self.entries[i];
            let ghost rest = self.entries@.subrange(i as int, self.entries@.len() as int);
            assert(rest.drop_first() =~= self.entries@.subrange(i + 1, self.entries@.len() as int));
            if e.0 == k {
                return Some(&e.1);
            }
            i = i + 1;
        }
        None
    }

    /// The value of a key, when it is a boolean.
    pub fn get_bool(&self, key: &str) -> (r: Option<bool>)
        ensures
            r == bool_of(self.value_spec(key@)),
    {
        match self.get(key) {
            Some(YamlTree::Boolean(b)) => Some(*b),
            _ => None,
        }
    }

    /// The value of a key, when it is text.
    pub fn get_str(&self, key: &str) -> (r: Option<&str>)
        ensures
            opt_text(r) == text_of(self.value_spec(key@)),
    {
        match self.get(key) {
            Some(YamlTree::Text(s)) => Some(s.as_str()),
            _ => None,
        }
    }

    /// The value of a key as a list of strings: a text is a list of one; a
    /// list keeps its texts and numbers, as written, and drops the rest.
    pub fn get_str_vec(&self, key: &str) -> (r: Option<Vec<String>>)
        ensures
            opt_texts(r) == text_list_of(self.value_spec(key@)),
    {
        match self.get(key) {
            Some(YamlTree::Text(s)) => {
                let mut v: Vec<String> = Vec::new();
                v.push(s.clone());
                assert(texts(v@) =~= seq![s@]);
                Some(v)
            },
            Some(YamlTree::Array(items)) => {
                let mut v: Vec<String> = Vec::new();
                let mut i: usize = 0;
                while i < items.len()
                    invariant
                        0 <= i <= items@.len(),
                        texts(v@) == scalar_texts(items@.subrange(0, i as int)),
                    decreases items@.len() - i,
                {
                    proof {
                        assert(items@.subrange(0, i + 1).drop_last() =~= items@.subrange(0, i as int));
                    }
                    match &items[i] {
                        YamlTree::Text(t) => v.push(t.clone()),
                        YamlTree::Integer(n) => v.push(int_text(*n)),
                        YamlTree::Real(t) => v.push(t.clone()),
                        _ => {},
                    }
                    assert(texts(v@) =~= scalar_texts(items@.subrange(0, i + 1)));
                    i = i + 1;
                }
                assert(items@.subrange(0, items@.len() as int) =~= items@);
                Some(v)
            },
            _ => None,
        }
    }

    /// The name of the backup helper's own configuration file, looked for
    /// beside this program: `game_backuper_cfg`, else `game_backuper.yml`.
    pub fn game_backuper_cfg_name(&self) -> (r: &str)
        ensures
            r@ == text_or(self.value_spec("game_backuper_cfg"@), "game_backuper.yml"@),
    {
        match self.get_str("game_backuper_cfg") {
            Some(s) => s,
            None => "game_backuper.yml",
        }
    }

    /// The backup helper: `game_backuper_exe`, else `game-backuper`.
    pub fn game_backuper_exe(&self) -> (r: String)
        ensures
            r@ == text_or(self.value_spec("game_backuper_exe"@), "game-backuper"@),
    {
        match self.get_str("game_backuper_exe") {
            Some(s) => s.to_owned(),
            None => "game-backuper".to_owned(),
        }
    }

    /// The command line of the program to launch.
    pub fn game_exe(&self) -> (r: Option<Vec<String>>)
        ensures
            opt_texts(r) == text_list_of(self.value_spec("game_exe"@)),
    {
        self.get_str_vec("game_exe")
    }

    /// A command line that replaces the default backup command.
    pub fn backup_command(&self) -> (r: Option<Vec<String>>)
        ensures
            opt_texts(r) == text_list_of(self.value_spec("backup_command"@)),
    {
        self.get_str_vec("backup_command")
    }

    /// A command line that replaces the default restore command.
    pub fn restore_command(&self) -> (r: Option<Vec<String>>)
        ensures
            opt_texts(r) == text_list_of(self.value_spec("restore_command"@)),
    {
        self.get_str_vec("restore_command")
    }

    /// Whether to wait for the operator before exiting; false by default.
    pub fn pause_at_exit(&self) -> (r: bool)
        ensures
            r == bool_or(self.value_spec("pause_at_exit"@), false),
    {
        match self.get_bool("pause_at_exit") {
            Some(b) => b,
            None => false,
        }
    }

    /// Whether to wait for the operator before exiting after a failure;
    /// false by default.
    pub fn pause_on_backup_error(&self) -> (r: bool)
        ensures
            r == bool_or(self.value_spec("pause_on_backup_error"@), false),
    {
        match self.get_bool("pause_on_backup_error") {
            Some(b) => b,
            None => false,
        }
    }

    /// The mirror tool: `rclone_exe`, else `rclone`.
    pub fn rclone_exe(&self) -> (r: String)
        ensures
            r@ == text_or(self.value_spec("rclone_exe"@), "rclone"@),
    {
        match self.get_str("rclone_exe") {
            Some(s) => s.to_owned(),
            None => "rclone".to_owned(),
        }
    }

    /// The remote mirror location.
    pub fn rclone_remote(&self) -> (r: Option<&str>)
        ensures
            opt_text(r) == text_of(self.value_spec("rclone_remote"@)),
    {
        self.get_str("rclone_remote")
    }

    /// The local mirror location.
    pub fn rclone_local(&self) -> (r: Option<&str>)
        ensures
            opt_text(r) == text_of(self.value_spec("rclone_local"@)),
    {
        self.get_str("rclone_local")
    }

    /// The mirror tool's flags: `rclone_flag`, else the single flag `-P`.
    pub fn rclone_flag(&self) -> (r: Vec<String>)
        ensures
            texts(r@) == list_or(self.value_spec("rclone_flag"@), seq!["-P"@]),
    {
        match self.get_str_vec("rclone_flag") {
            Some(v) => v,
            None => {
                let mut v: Vec<String> = Vec::new();
                v.push("-P".to_owned());
                assert(texts(v@) =~= seq!["-P"@]);
                v
            },
        }
    }

    /// Whether to hide the console while the program runs; true by default.
    pub fn hide_window_when_running_exe(&self) -> (r: bool)
        ensures
            r == bool_or(self.value_spec("hide_window_when_running_exe"@), true),
    {
        match self.get_bool("hide_window_when_running_exe") {
            Some(b) => b,
            None => true,
        }
    }

    /// Whether a failed run goes on to the backup without asking; false by
    /// default.
    pub fn continue_when_run_failed(&self) -> (r: bool)
        ensures
            r == bool_or(self.value_spec("continue_when_run_failed"@), false),
    {
        match self.get_bool("continue_when_run_failed") {
            Some(b) => b,
            None => false,
        }
    }

    /// The modules to load into the program before it starts, in order;
    /// none by default.
    pub fn hook_dll(&self) -> (r: Vec<String>)
        ensures
            texts(r@) == list_or(self.value_spec("hook_dll"@), seq![]),
    {
        match self.get_str_vec("hook_dll") {
            Some(v) => v,
            None => {
                let v: Vec<String> = Vec::new();
                assert(texts(v@) =~= seq![]);
                v
            },
        }
    }

    /// The working directory to launch the program in.
    pub fn current_dir(&self) -> (r: Option<&str>)
        ensures
            opt_text(r) == text_of(self.value_spec("current_dir"@)),
    {
        self.get_str("current_dir")
    }
}


} // verus!
