//! The filesystem prompt provider: which files of the store define prompts,
//! which definitions are accepted, and in what order prompts are listed.
//! The store itself is read by the caller, who hands in what it found.

use crate::prompts::provider::{
    first_message_error, first_missing, process_prompt_messages, renders_as, supplied,
    validate_required_arguments,
};
use crate::prompts::types::{Arguments, Error, ErrorView, Prompt, PromptMessage};
use crate::providers::filesystem::{
    file_scheme, has_scheme, join_path, joined_path, strip_scheme, without_scheme,
};
use crate::providers::ResourceProvider;
use crate::text::{
    concat, concat4, has_prefix, lemma_lex_asymmetric, lemma_lex_not_after, lemma_lex_total, lex_lt,
    str_eq, str_lt,
};
use crate::types::opt_text;
use std::path::Path;
use vstd::multiset::Multiset;
use vstd::prelude::*;

verus! {

/// What `Path::extension` gives for `path`, as text: what follows the last
/// dot of the file name, where there is such a part.
pub uninterp spec fn path_extension(path: Seq<char>) -> Option<Seq<char>>;

/// What `Path::file_stem` gives for `path`, as text: the file name without
/// its extension, where there is a file name.
pub uninterp spec fn path_stem(path: Seq<char>) -> Option<Seq<char>>;

/// `Path::extension`, as text. The result is named, not described.
#[verifier::external_body]
fn extension_of(path: &str) -> (r: Option<String>)
    ensures
        opt_text(r) == path_extension(path@),
{
    match Path::new(path).extension() {
        Some(extension) => match extension.to_str() {
            Some(text) => Some(text.to_owned()),
            None => None,
        },
        None => None,
    }
}

/// `Path::file_stem`, as text. The result is named, not described.
#[verifier::external_body]
fn stem_of(path: &str) -> (r: Option<String>)
    ensures
        opt_text(r) == path_stem(path@),
{
    match Path::new(path).file_stem() {
        Some(stem) => match stem.to_str() {
            Some(text) => Some(text.to_owned()),
            None => None,
        },
        None => None,
    }
}

/// Whether `path` names a prompt definition: a file with the extension
/// `yaml`.
pub open spec fn is_definition(path: Seq<char>) -> bool {
    path_extension(path) == Some("yaml"@)
}

/// The paths among `paths` that name prompt definitions, in order.
pub open spec fn definitions(paths: Seq<String>) -> Seq<String> {
    paths.filter(|p: String| is_definition(p@))
}

/// The text of the error for a definition whose name is not the name that
/// was asked for.
pub open spec fn mismatch_message(expected: Seq<char>, found: Seq<char>) -> Seq<char> {
    "Prompt name mismatch: expected "@ + expected + ", found "@ + found
}

/// The definitions among `loaded` that were accepted, in order.
pub open spec fn accepted(loaded: Seq<Result<Prompt, Error>>) -> Seq<Prompt>
    decreases loaded.len(),
{
    if loaded.len() == 0 {
        Seq::empty()
    } else {
        match loaded[0] {
            Ok(p) => seq![p] + accepted(loaded.drop_first()),
            Err(_) => accepted(loaded.drop_first()),
        }
    }
}

/// `sorted` with `p` put in before the first prompt whose name does not come
/// before the name of `p`.
pub open spec fn insert_by_name(sorted: Seq<Prompt>, p: Prompt) -> Seq<Prompt>
    decreases sorted.len(),
{
    if sorted.len() == 0 {
        seq![p]
    } else if lex_lt(sorted[0].name@, p.name@) {
        seq![sorted[0]] + insert_by_name(sorted.drop_first(), p)
    } else {
        seq![p] + sorted
    }
}

/// `prompts` in the order of their names; prompts of the same name keep the
/// order they had.
pub open spec fn sort_by_name(prompts: Seq<Prompt>) -> Seq<Prompt>
    decreases prompts.len(),
{
    if prompts.len() == 0 {
        Seq::empty()
    } else {
        insert_by_name(sort_by_name(prompts.drop_first()), prompts[0])
    }
}

/// Where `p` goes in `sorted`: after `n` prompts whose names come before its
/// name, at the end or before one whose name does not.
proof fn lemma_insert_position(sorted: Seq<Prompt>, p: Prompt, n: int)
    requires
        0 <= n <= sorted.len(),
        forall|k: int| 0 <= k < n ==> lex_lt(#[trigger] sorted[k].name@, p.name@),
        n == sorted.len() || !lex_lt(sorted[n].name@, p.name@),
    ensures
        insert_by_name(sorted, p) == sorted.insert(n, p),
    decreases sorted.len(),
{
    if n == 0 {
        assert(sorted.insert(0, p) =~= seq![p] + sorted);
    } else {
        let rest = sorted.drop_first();
        assert forall|k: int| 0 <= k < n - 1 implies lex_lt(#[trigger] rest[k].name@, p.name@) by {
            assert(rest[k] == sorted[k + 1]);
        }
        lemma_insert_position(rest, p, n - 1);
        assert(sorted.insert(n, p) =~= seq![sorted[0]] + rest.insert(n - 1, p));
    }
}

/// Whether no prompt of `prompts` stands before one whose name comes before
/// its own.
pub open spec fn ascending(prompts: Seq<Prompt>) -> bool {
    forall|i: int, j: int|
        0 <= i < j < prompts.len() ==> !lex_lt(
            (#[trigger] prompts[j]).name@,
            (#[trigger] prompts[i]).name@,
        )
}

/// Whether no two prompts of `prompts` share a name.
pub open spec fn distinct_names(prompts: Seq<Prompt>) -> bool {
    forall|i: int, j: int|
        0 <= i < j < prompts.len() ==> (#[trigger] prompts[i]).name@ != (#[trigger] prompts[j]).name@
}

/// How many prompts at the start of `sorted` have a name that comes before
/// the name of `p`.
pub open spec fn insert_index(sorted: Seq<Prompt>, p: Prompt) -> nat
    decreases sorted.len(),
{
    if sorted.len() == 0 || !lex_lt(sorted[0].name@, p.name@) {
        0
    } else {
        1 + insert_index(sorted.drop_first(), p)
    }
}

proof fn lemma_insert_index(sorted: Seq<Prompt>, p: Prompt)
    ensures
        insert_index(sorted, p) <= sorted.len(),
        forall|k: int|
            0 <= k < insert_index(sorted, p) ==> lex_lt(#[trigger] sorted[k].name@, p.name@),
        insert_index(sorted, p) < sorted.len() ==> !lex_lt(
            sorted[insert_index(sorted, p) as int].name@,
            p.name@,
        ),
        insert_by_name(sorted, p) == sorted.insert(insert_index(sorted, p) as int, p),
    decreases sorted.len(),
{
    if sorted.len() == 0 || !lex_lt(sorted[0].name@, p.name@) {
    } else {
        let rest = sorted.drop_first();
        lemma_insert_index(rest, p);
        assert forall|k: int| 0 <= k < insert_index(sorted, p) implies lex_lt(
            #[trigger] sorted[k].name@,
            p.name@,
        ) by {
            if k > 0 {
                assert(sorted[k] == rest[k - 1]);
            }
        }
        if insert_index(sorted, p) < sorted.len() {
            assert(sorted[insert_index(sorted, p) as int] == rest[insert_index(rest, p) as int]);
        }
    }
    lemma_insert_position(sorted, p, insert_index(sorted, p) as int);
}

/// Putting a prompt into a list that is in the order of names keeps that
/// order, and adds just that prompt.
proof fn lemma_insert_keeps_order(sorted: Seq<Prompt>, p: Prompt)
    requires
        ascending(sorted),
    ensures
        ascending(insert_by_name(sorted, p)),
        insert_by_name(sorted, p).to_multiset() == sorted.to_multiset().insert(p),
{
    lemma_insert_index(sorted, p);
    let n = insert_index(sorted, p) as int;
    let out = sorted.insert(n, p);
    vstd::seq_lib::to_multiset_insert(sorted, n, p);
    assert forall|i: int, j: int| 0 <= i < j < out.len() implies !lex_lt(
        (#[trigger] out[j]).name@,
        (#[trigger] out[i]).name@,
    ) by {
        if i == n {
            assert(out[j] == sorted[j - 1]);
            if j - 1 > n {
                lemma_lex_not_after(p.name@, sorted[n].name@, sorted[j - 1].name@);
            }
        } else if j == n {
            assert(out[i] == sorted[i]);
            lemma_lex_asymmetric(sorted[i].name@, p.name@);
        } else {
            let a = if i < n { i } else { i - 1 };
            let b = if j < n { j } else { j - 1 };
            assert(out[i] == sorted[a]);
            assert(out[j] == sorted[b]);
        }
    }
}

/// A listing is in the order of names, and holds exactly the prompts that
/// were put in, each as often as it was put in.
pub proof fn lemma_sorted_listing(prompts: Seq<Prompt>)
    ensures
        ascending(sort_by_name(prompts)),
        sort_by_name(prompts).to_multiset() == prompts.to_multiset(),
        sort_by_name(prompts).len() == prompts.len(),
    decreases prompts.len(),
{
    broadcast use vstd::seq_lib::group_to_multiset_ensures;

    if prompts.len() == 0 {
    } else {
        let rest = prompts.drop_first();
        lemma_sorted_listing(rest);
        lemma_insert_keeps_order(sort_by_name(rest), prompts[0]);
        assert(prompts =~= seq![prompts[0]] + rest);
        vstd::seq_lib::to_multiset_insert(rest, 0, prompts[0]);
        assert(rest.insert(0, prompts[0]) =~= prompts);
        lemma_insert_index(sort_by_name(rest), prompts[0]);
    }
}

/// Whether `prompts` holds no prompt twice, and no two prompts of one name.
pub open spec fn told_apart_by_name(prompts: Multiset<Prompt>) -> bool {
    &&& forall|p: Prompt| prompts.count(p) <= 1
    &&& forall|p: Prompt, q: Prompt|
        prompts.count(p) > 0 && prompts.count(q) > 0 && p.name@ == q.name@ ==> p == q
}

/// Two lists in the order of names that hold the same prompts, none of them
/// twice and no two of one name, are the same list.
proof fn lemma_one_order(x: Seq<Prompt>, y: Seq<Prompt>)
    requires
        ascending(x),
        ascending(y),
        x.to_multiset() == y.to_multiset(),
        told_apart_by_name(x.to_multiset()),
    ensures
        x == y,
    decreases x.len(),
{
    broadcast use vstd::seq_lib::group_to_multiset_ensures;

    vstd::seq_lib::to_multiset_len(x);
    vstd::seq_lib::to_multiset_len(y);
    assert(x.len() == y.len());
    if x.len() == 0 {
        assert(x =~= y);
    } else {
        assert(x.contains(x[0]));
        assert(y.contains(y[0]));
        assert(y.to_multiset().count(x[0]) > 0);
        assert(x.to_multiset().count(y[0]) > 0);
        let j = choose|j: int| 0 <= j < y.len() && y[j] == x[0];
        let i = choose|i: int| 0 <= i < x.len() && x[i] == y[0];
        if x[0].name@ != y[0].name@ {
            lemma_lex_total(x[0].name@, y[0].name@);
            if lex_lt(x[0].name@, y[0].name@) {
                assert(j > 0);
                assert(!lex_lt(y[j].name@, y[0].name@));
            } else {
                assert(i > 0);
                assert(!lex_lt(x[i].name@, x[0].name@));
            }
        }
        assert(x[0] == y[0]);
        let xs = x.drop_first();
        let ys = y.drop_first();
        assert(x.remove(0) =~= xs);
        assert(y.remove(0) =~= ys);
        vstd::seq_lib::to_multiset_remove(x, 0);
        vstd::seq_lib::to_multiset_remove(y, 0);
        assert(xs.to_multiset() == ys.to_multiset());
        assert(told_apart_by_name(xs.to_multiset())) by {
            assert forall|p: Prompt| xs.to_multiset().count(p) <= 1 by {
                assert(xs.to_multiset().count(p) <= x.to_multiset().count(p));
            }
            assert forall|p: Prompt, q: Prompt|
                xs.to_multiset().count(p) > 0 && xs.to_multiset().count(q) > 0 && p.name@
                    == q.name@ implies p == q by {
                assert(xs.to_multiset().count(p) <= x.to_multiset().count(p));
                assert(xs.to_multiset().count(q) <= x.to_multiset().count(q));
            }
        }
        assert(ascending(xs)) by {
            assert forall|a: int, b: int| 0 <= a < b < xs.len() implies !lex_lt(
                (#[trigger] xs[b]).name@,
                (#[trigger] xs[a]).name@,
            ) by {
                assert(xs[a] == x[a + 1]);
                assert(xs[b] == x[b + 1]);
            }
        }
        assert(ascending(ys)) by {
            assert forall|a: int, b: int| 0 <= a < b < ys.len() implies !lex_lt(
                (#[trigger] ys[b]).name@,
                (#[trigger] ys[a]).name@,
            ) by {
                assert(ys[a] == y[a + 1]);
                assert(ys[b] == y[b + 1]);
            }
        }
        lemma_one_order(xs, ys);
        assert(x =~= seq![x[0]] + xs);
        assert(y =~= seq![y[0]] + ys);
    }
}

/// Prompts with names that are all different are told apart by name.
proof fn lemma_distinct_names_tell_apart(prompts: Seq<Prompt>)
    requires
        distinct_names(prompts),
    ensures
        told_apart_by_name(prompts.to_multiset()),
{
    broadcast use vstd::seq_lib::group_to_multiset_ensures;

    assert(prompts.no_duplicates()) by {
        assert forall|i: int, j: int|
            0 <= i < prompts.len() && 0 <= j < prompts.len() && i != j implies prompts[i]
            != prompts[j] by {
            if i < j {
                assert(prompts[i].name@ != prompts[j].name@);
            } else {
                assert(prompts[j].name@ != prompts[i].name@);
            }
        }
    }
    prompts.lemma_multiset_has_no_duplicates();
    assert forall|p: Prompt| prompts.to_multiset().count(p) <= 1 by {
        if prompts.to_multiset().count(p) > 0 {
            assert(prompts.to_multiset().contains(p));
        }
    }
    assert forall|p: Prompt, q: Prompt|
        prompts.to_multiset().count(p) > 0 && prompts.to_multiset().count(q) > 0 && p.name@
            == q.name@ implies p == q by {
        assert(prompts.contains(p));
        assert(prompts.contains(q));
        let i = choose|i: int| 0 <= i < prompts.len() && prompts[i] == p;
        let j = choose|j: int| 0 <= j < prompts.len() && prompts[j] == q;
        if i < j {
            assert(prompts[i].name@ != prompts[j].name@);
        } else if j < i {
            assert(prompts[j].name@ != prompts[i].name@);
        }
    }
}

/// The listing does not depend on the order in which the store gives its
/// prompts: two lists of the same prompts, with names that are all
/// different, are listed alike. So a store that has not changed is listed
/// as before.
pub proof fn lemma_listing_is_fixed(a: Seq<Prompt>, b: Seq<Prompt>)
    requires
        a.to_multiset() == b.to_multiset(),
        distinct_names(a),
    ensures
        sort_by_name(a) == sort_by_name(b),
{
    lemma_sorted_listing(a);
    lemma_sorted_listing(b);
    lemma_distinct_names_tell_apart(a);
    lemma_one_order(sort_by_name(a), sort_by_name(b));
}

/// The filesystem prompt provider: the directory that holds the prompt
/// definitions, one file for each prompt, named after it.
#[derive(Debug, PartialEq, Eq)]
pub struct FileSystemPromptProvider {
    root_path: String,
}

impl FileSystemPromptProvider {
    /// The directory of the store.
    pub closed spec fn root(&self) -> Seq<char> {
        self.root_path@
    }

    /// A provider for the store in the directory `root_path`.
    pub fn new(root_path: &str) -> (r: Self)
        ensures
            r.root() == root_path@,
    {
        FileSystemPromptProvider { root_path: root_path.to_owned() }
    }

    /// The file that defines the prompt `name`.
    pub fn prompt_path(&self, name: &str) -> (r: String)
        ensures
            r@ == joined_path(self.root(), name@ + ".yaml"@),
    {
        let file = concat(name, ".yaml");
        join_path(self.root_path.as_str(), file.as_str())
    }

    /// The name of the prompt that the file at `path` defines: the file name
    /// without its extension.
    pub fn prompt_name(&self, path: &str) -> (r: Option<String>)
        ensures
            opt_text(r) == path_stem(path@),
    {
        stem_of(path)
    }

    /// Accepts the definition that was loaded for the prompt `name`: one
    /// whose own name is `name`. `loaded` is what reading and parsing the
    /// prompt's file gave.
    pub fn load_prompt(&self, name: &str, loaded: Result<Prompt, Error>) -> (r: Result<
        Prompt,
        Error,
    >)
        ensures
            match loaded {
                Err(failure) => r == Err::<Prompt, Error>(failure),
                Ok(prompt) => if prompt.name@ == name@ {
                    r == Ok::<Prompt, Error>(prompt)
                } else {
                    r matches Err(e) && e@ == ErrorView::InvalidTemplate(
                        mismatch_message(name@, prompt.name@),
                    )
                },
            },
    {
        match loaded {
            Err(failure) => Err(failure),
            Ok(prompt) => {
                if str_eq(prompt.name.as_str(), name) {
                    Ok(prompt)
                } else {
                    Err(
                        Error::InvalidTemplate(
                            concat4(
                                "Prompt name mismatch: expected ",
                                name,
                                ", found ",
                                prompt.name.as_str(),
                            ),
                        ),
                    )
                }
            },
        }
    }

    /// The files of the store that define prompts, given the paths that the
    /// store's directory holds, or the failure to read it.
    pub fn list_prompt_files(&self, entries: Result<Vec<String>, String>) -> (r: Result<
        Vec<String>,
        Error,
    >)
        ensures
            match entries {
                Ok(paths) => r matches Ok(files) && files@ == definitions(paths@),
                Err(failure) => r matches Err(e) && e@ == ErrorView::IoError(failure@),
            },
    {
        match entries {
            Err(failure) => Err(Error::IoError(failure)),
            Ok(paths) => {
                let mut files: Vec<String> = Vec::new();
                let mut i: usize = 0;
                assert(paths@.subrange(0, 0) =~= Seq::<String>::empty());
                while i < paths.len()
                    invariant
                        i <= paths.len(),
                        files@ == definitions(paths@.subrange(0, i as int)),
                    decreases paths.len() - i,
                {
                    proof {
                        reveal(Seq::filter);
                        assert(paths@.subrange(0, i + 1).drop_last() =~= paths@.subrange(
                            0,
                            i as int,
                        ));
                    }
                    let is_yaml = match extension_of(paths[i].as_str()) {
                        Some(extension) => str_eq(extension.as_str(), "yaml"),
                        None => false,
                    };
                    if is_yaml {
                        files.push(paths[i].clone());
                    }
                    i = i + 1;
                }
                assert(paths@.subrange(0, paths.len() as int) =~= paths@);
                Ok(files)
            },
        }
    }

    /// Lists the prompts of the store in the order of their names, given what
    /// loading each definition gave. A definition that failed to load is
    /// left out. There is one page only: the cursor is not looked at, and
    /// none is returned.
    pub fn list_prompts(&self, _cursor: Option<String>, loaded: Vec<Result<Prompt, Error>>) -> (r:
        (Vec<Prompt>, Option<String>))
        ensures
            r.0@ == sort_by_name(accepted(loaded@)),
            ascending(r.0@),
            r.0@.to_multiset() == accepted(loaded@).to_multiset(),
            r.1 is None,
    {
        proof {
            lemma_sorted_listing(accepted(loaded@));
        }
        let ghost all = loaded@;
        let mut loaded = loaded;
        let mut prompts: Vec<Prompt> = Vec::new();
        assert(all.skip(all.len() as int) =~= Seq::<Result<Prompt, Error>>::empty());
        assert(all.subrange(0, all.len() as int) =~= all);
        while loaded.len() > 0
            invariant
                loaded.len() <= all.len(),
                loaded@ == all.subrange(0, loaded.len() as int),
                prompts@ == sort_by_name(accepted(all.skip(loaded.len() as int))),
            decreases loaded.len(),
        {
            let ghost n = loaded.len() as int;
            let last = loaded.pop().unwrap();
            proof {
                assert(last == all[n - 1]);
                assert(all.skip(n - 1).drop_first() =~= all.skip(n));
                assert(all.skip(n - 1)[0] == last);
                assert(loaded@ =~= all.subrange(0, n - 1));
            }
            match last {
                Ok(prompt) => {
                    let mut j: usize = 0;
                    while j < prompts.len() && str_lt(
                        prompts[j].name.as_str(),
                        prompt.name.as_str(),
                    )
                        invariant
                            j <= prompts.len(),
                            forall|k: int|
                                0 <= k < j ==> lex_lt(#[trigger] prompts@[k].name@, prompt.name@),
                        decreases prompts.len() - j,
                    {
                        j = j + 1;
                    }
                    proof {
                        lemma_insert_position(prompts@, prompt, j as int);
                        assert(accepted(all.skip(n - 1)).drop_first() =~= accepted(all.skip(n)));
                    }
                    prompts.insert(j, prompt);
                },
                Err(_) => {},
            }
        }
        assert(all.skip(0) =~= all);
        (prompts, None)
    }

    /// The messages of the prompt `name`, rendered with `arguments`, given
    /// what reading and parsing the prompt's file gave. The definition must
    /// carry the name that was asked for, and every required argument must
    /// be there.
    pub fn get_prompt<R: ResourceProvider>(
        &self,
        name: &str,
        loaded: Result<Prompt, Error>,
        arguments: Option<&Arguments>,
        resource_provider: Option<&R>,
    ) -> (r: Result<Vec<PromptMessage>, Error>)
        ensures
            match loaded {
                Err(failure) => r == Err::<Vec<PromptMessage>, Error>(failure),
                Ok(prompt) => if prompt.name@ != name@ {
                    r matches Err(e) && e@ == ErrorView::InvalidTemplate(
                        mismatch_message(name@, prompt.name@),
                    )
                } else {
                    match r {
                        Ok(v) => {
                            &&& first_missing(prompt@.arguments, supplied(arguments)) is None
                            &&& first_message_error(prompt@.messages, supplied(arguments)) is None
                            &&& v.len() == prompt.messages.len()
                            &&& forall|i: int|
                                0 <= i < v.len() ==> renders_as(
                                    #[trigger] prompt@.messages[i],
                                    supplied(arguments),
                                    resource_provider is Some,
                                    Ok(v[i]@),
                                )
                        },
                        Err(e) => match first_missing(prompt@.arguments, supplied(arguments)) {
                            Some(missing) => e@ == ErrorView::MissingRequiredArgument(missing),
                            None => first_message_error(prompt@.messages, supplied(arguments))
                                == Some(e@),
                        },
                    }
                },
            },
    {
        match self.load_prompt(name, loaded) {
            Err(e) => Err(e),
            Ok(prompt) => process_prompt_messages(&prompt, arguments, resource_provider),
        }
    }

    /// The file that the address `uri` of an embedded resource names. Only
    /// addresses that begin with `file://` are served.
    pub fn resource_path(&self, uri: &str) -> (r: Result<String, Error>)
        ensures
            if has_prefix(uri@, file_scheme()) {
                r matches Ok(path) && path@ == without_scheme(uri@)
            } else {
                r matches Err(e) && e@ == ErrorView::ResourceError(
                    "Unsupported URI scheme: "@ + uri@,
                )
            },
    {
        if has_scheme(uri) {
            Ok(strip_scheme(uri))
        } else {
            Err(Error::ResourceError(concat("Unsupported URI scheme: ", uri)))
        }
    }

    /// The text of an embedded resource, given what reading its file gave.
    pub fn load_resource(&self, read: Result<String, String>) -> (r: Result<String, Error>)
        ensures
            match read {
                Ok(text) => r == Ok::<String, Error>(text),
                Err(failure) => r matches Err(e) && e@ == ErrorView::ResourceError(
                    "Failed to read resource: "@ + failure@,
                ),
            },
    {
        match read {
            Ok(text) => Ok(text),
            Err(failure) => Err(
                Error::ResourceError(concat("Failed to read resource: ", failure.as_str())),
            ),
        }
    }

    /// Checks that every required parameter of `prompt` was supplied.
    pub fn validate_arguments(&self, prompt: &Prompt, arguments: &Arguments) -> (r: Result<
        (),
        Error,
    >)
        ensures
            match r {
                Ok(_) => first_missing(prompt@.arguments, arguments@) is None,
                Err(e) => first_missing(prompt@.arguments, arguments@) matches Some(name) && e@
                    == ErrorView::MissingRequiredArgument(name),
            },
    {
        validate_required_arguments(prompt, arguments)
    }
}

} // verus!
