//! Tenant configuration: what a guest is started from.

use crate::text::{all_space, chars_of, clone_texts, contains, find_from, has_substring, is_blank,
    join2, occurs_at, texts};
use vstd::prelude::*;
use vstd::string::*;

verus! {

/// One variable of a guest's environment.
#[derive(Debug)]
pub struct EnvironmentVariable {
    pub name: String,
    pub value: String,
}

/// What an environment variable holds.
pub struct EnvironmentVariableView {
    pub name: Seq<char>,
    pub value: Seq<char>,
}

impl View for EnvironmentVariable {
    type V = EnvironmentVariableView;

    open spec fn view(&self) -> EnvironmentVariableView {
        EnvironmentVariableView { name: self.name@, value: self.value@ }
    }
}

impl Clone for EnvironmentVariable {
    fn clone(&self) -> (r: Self)
        ensures
            r@ == self@,
    {
        EnvironmentVariable { name: self.name.clone(), value: self.value.clone() }
    }
}

/// What a list of environment variables holds.
pub open spec fn env_views(v: Seq<EnvironmentVariable>) -> Seq<EnvironmentVariableView> {
    v.map_values(|e: EnvironmentVariable| e@)
}

/// The configuration of one tenant: its name, the path of its sandbox image,
/// and the environment and arguments that the guest is to see.
#[derive(Debug)]
pub struct WasmComponentMetadata {
    pub name: String,
    pub wasm: String,
    pub env: Vec<EnvironmentVariable>,
    pub args: Vec<String>,
}

/// What a tenant's configuration holds.
pub struct WasmComponentMetadataView {
    pub name: Seq<char>,
    pub wasm: Seq<char>,
    pub env: Seq<EnvironmentVariableView>,
    pub args: Seq<Seq<char>>,
}

impl View for WasmComponentMetadata {
    type V = WasmComponentMetadataView;

    open spec fn view(&self) -> WasmComponentMetadataView {
        WasmComponentMetadataView {
            name: self.name@,
            wasm: self.wasm@,
            env: env_views(self.env@),
            args: texts(self.args@),
        }
    }
}

/// A copy of a list of environment variables.
pub fn clone_env(v: &Vec<EnvironmentVariable>) -> (r: Vec<EnvironmentVariable>)
    ensures
        env_views(r@) == env_views(v@),
{
    let mut r: Vec<EnvironmentVariable> = Vec::new();
    let mut i: usize = 0;
    while i < v.len()
        invariant
            i <= v.len(),
            r@.len() == i,
            forall|k: int| 0 <= k < i ==> r@[k]@ == v@[k]@,
        decreases v.len() - i,
    {
        r.push(v[i].clone());
        i += 1;
    }
    assert(env_views(r@) =~= env_views(v@));
    r
}

impl Clone for WasmComponentMetadata {
    fn clone(&self) -> (r: Self)
        ensures
            r@ == self@,
    {
        WasmComponentMetadata {
            name: self.name.clone(),
            wasm: self.wasm.clone(),
            env: clone_env(&self.env),
            args: clone_texts(&self.args),
        }
    }
}

/// The (name, value) pairs of a guest's environment, in the configured order.
pub open spec fn env_pair_views(env: Seq<EnvironmentVariable>) -> Seq<(Seq<char>, Seq<char>)> {
    env.map_values(|e: EnvironmentVariable| (e.name@, e.value@))
}

/// What a list of pairs of strings holds.
pub open spec fn pair_texts(v: Seq<(String, String)>) -> Seq<(Seq<char>, Seq<char>)> {
    v.map_values(|p: (String, String)| (p.0@, p.1@))
}

impl WasmComponentMetadata {
    /// The environment handed to the guest, as (name, value) pairs in the
    /// configured order.
    pub fn env_pairs(&self) -> (pairs: Vec<(String, String)>)
        ensures
            pair_texts(pairs@) == env_pair_views(self.env@),
    {
        let mut pairs: Vec<(String, String)> = Vec::new();
        let mut i: usize = 0;
        while i < self.env.len()
            invariant
                i <= self.env.len(),
                pairs@.len() == i,
                forall|k: int|
                    0 <= k < i ==> pairs@[k].0@ == self.env@[k].name@ && pairs@[k].1@
                        == self.env@[k].value@,
            decreases self.env.len() - i,
        {
            pairs.push((self.env[i].name.clone(), self.env[i].value.clone()));
            i += 1;
        }
        assert(pair_texts(pairs@) =~= env_pair_views(self.env@));
        pairs
    }
}

/// What stands between two documents of a configuration file.
pub open spec fn document_separator() -> Seq<char> {
    "\n---"@
}

/// The first position at or after `from` at which `sep` occurs in `s`, or -1
/// when there is none.
pub open spec fn first_from(s: Seq<char>, sep: Seq<char>, from: int) -> int
    decreases s.len() + 1 - from,
{
    if from < 0 || from + sep.len() > s.len() {
        -1
    } else if occurs_at(s, sep, from) {
        from
    } else {
        first_from(s, sep, from + 1)
    }
}

/// The pieces into which the occurrences of `sep` cut the part of `s` that
/// begins at `start`, taken from left to right without overlap; `sep` is
/// not empty.
pub open spec fn split_from(s: Seq<char>, sep: Seq<char>, start: int) -> Seq<Seq<char>>
    decreases s.len() - start,
{
    let at = first_from(s, sep, start);
    if sep.len() == 0 || start < 0 || at < start || at + sep.len() > s.len() {
        seq![s.subrange(start, s.len() as int)]
    } else {
        seq![s.subrange(start, at)] + split_from(s, sep, at + sep.len())
    }
}

/// The documents of a configuration file: none where the file holds only
/// white space, else the pieces between its separators.
pub open spec fn documents(contents: Seq<char>) -> Seq<Seq<char>> {
    if all_space(contents) {
        Seq::empty()
    } else {
        split_from(contents, document_separator(), 0)
    }
}

/// A search that found `sep` first at `at` agrees with `first_from`.
proof fn lemma_first_found(s: Seq<char>, sep: Seq<char>, from: int, at: int)
    requires
        0 <= from <= at,
        occurs_at(s, sep, at),
        forall|k: int| from <= k < at ==> !occurs_at(s, sep, k),
    ensures
        first_from(s, sep, from) == at,
    decreases at - from,
{
    if from < at {
        lemma_first_found(s, sep, from + 1, at);
    }
}

/// A search that found `sep` nowhere agrees with `first_from`.
proof fn lemma_none_found(s: Seq<char>, sep: Seq<char>, from: int)
    requires
        0 <= from,
        forall|k: int| from <= k ==> !occurs_at(s, sep, k),
    ensures
        first_from(s, sep, from) == -1,
    decreases s.len() + 1 - from,
{
    if from + sep.len() <= s.len() {
        lemma_none_found(s, sep, from + 1);
    }
}

/// Cuts the contents of a configuration file into its documents.
pub fn split_documents(contents: &str) -> (docs: Vec<String>)
    ensures
        texts(docs@) == documents(contents@),
{
    let mut docs: Vec<String> = Vec::new();
    if is_blank(contents) {
        assert(texts(docs@) =~= documents(contents@));
        return docs;
    }
    let hay = chars_of(contents);
    let sep = chars_of("\n---");
    proof {
        reveal_strlit("\n---");
    }
    let n = sep.len();
    let mut start: usize = 0;
    loop
        invariant_except_break
            hay@ == contents@,
            sep@ == document_separator(),
            n == sep.len(),
            n == 4,
            start <= hay.len(),
            documents(contents@) == texts(docs@) + split_from(
                contents@,
                document_separator(),
                start as int,
            ),
        ensures
            texts(docs@) == documents(contents@),
        decreases hay.len() - start,
    {
        let ghost before = texts(docs@);
        match find_from(&hay, &sep, start) {
            Some(at) => {
                proof {
                    lemma_first_found(contents@, document_separator(), start as int, at as int);
                }
                docs.push(String::from_str(contents.substring_char(start, at)));
                assert(texts(docs@) =~= before + seq![contents@.subrange(start as int, at as int)]);
                assert(texts(docs@) + split_from(
                    contents@,
                    document_separator(),
                    at + n,
                ) =~= before + split_from(contents@, document_separator(), start as int));
                start = at + n;
            },
            None => {
                proof {
                    lemma_none_found(contents@, document_separator(), start as int);
                }
                docs.push(String::from_str(contents.substring_char(start, hay.len())));
                assert(texts(docs@) =~= before + seq![
                    contents@.subrange(start as int, contents@.len() as int),
                ]);
                break;
            },
        }
    }
    docs
}

/// Whether a parser's message says that a document held nothing.
pub open spec fn is_end_of_input(message: Seq<char>) -> bool {
    has_substring(message, "EOF while parsing a value"@)
}

/// The error for a document that could not be read.
pub open spec fn parse_failure(message: Seq<char>) -> Seq<char> {
    "Failed to parse module: "@ + message
}

/// What is made of the parsed documents of a file, taken in their order: the
/// configurations that were read, where documents that held nothing are
/// passed over, or the error for the first document that could not be read.
pub open spec fn collected(parsed: Seq<Result<WasmComponentMetadata, String>>) -> Result<
    Seq<WasmComponentMetadata>,
    Seq<char>,
>
    decreases parsed.len(),
{
    if parsed.len() == 0 {
        Ok(Seq::empty())
    } else {
        match collected(parsed.drop_last()) {
            Err(failure) => Err(failure),
            Ok(kept) => match parsed.last() {
                Ok(config) => Ok(kept.push(config)),
                Err(message) => if is_end_of_input(message@) {
                    Ok(kept)
                } else {
                    Err(parse_failure(message@))
                },
            },
        }
    }
}

/// Gathers the configurations of a file from what parsing each of its
/// documents gave: a configuration, or the parser's message.
pub fn collect_documents(parsed: Vec<Result<WasmComponentMetadata, String>>) -> (r: Result<
    Vec<WasmComponentMetadata>,
    String,
>)
    ensures
        r is Ok == (collected(parsed@) is Ok),
        r matches Ok(configs) ==> collected(parsed@)->Ok_0 == configs@,
        r matches Err(failure) ==> collected(parsed@)->Err_0 == failure@,
{
    let mut kept: Vec<WasmComponentMetadata> = Vec::new();
    let mut failure: Option<String> = None;
    let ghost all = parsed@;
    for item in it: parsed
        invariant
            it.seq() == all,
            failure is None ==> collected(all.take(it.index() as int)) is Ok && collected(
                all.take(it.index() as int),
            )->Ok_0 == kept@,
            failure matches Some(f) ==> collected(all.take(it.index() as int)) is Err && collected(
                all.take(it.index() as int),
            )->Err_0 == f@,
    {
        let ghost i = it.index() as int;
        assert(all.take(i + 1).drop_last() =~= all.take(i));
        assert(all.take(i + 1).last() == item);
        if failure.is_none() {
            match item {
                Ok(config) => {
                    kept.push(config);
                },
                Err(message) => {
                    if !contains(message.as_str(), "EOF while parsing a value") {
                        failure = Some(join2("Failed to parse module: ", message.as_str()));
                    }
                },
            }
        }
    }
    assert(all.take(all.len() as int) =~= all);
    match failure {
        Some(f) => Err(f),
        None => Ok(kept),
    }
}

} // verus!
