//! Hot reload of the shaders: after their files changed on disk, which WGSL
//! texts replace the running shaders, or why the running ones are kept.
//!
//! A reload is all or nothing. Each shader with a file takes the file's new
//! text, which must have been read and must parse as WGSL; a shader without a
//! file is rebuilt from its embedded text. The first shader, in order, whose
//! file could not be read or does not parse stops the reload, and every
//! running shader is kept.
use vstd::prelude::*;

use crate::overlay::ShaderSource;

verus! {

broadcast use vstd::seq_lib::group_seq_properties;

/// Why a hot reload keeps the running shaders: the shader at the index has a
/// file that could not be read, or whose text is not valid WGSL.
#[derive(Clone, Copy, PartialEq, Eq, Debug, Structural)]
pub enum ReloadFailure {
    Unreadable(usize),
    InvalidWgsl(usize),
}

/// Whether `source` parses as a WGSL module, as naga's WGSL front end decides.
pub uninterp spec fn wgsl_parses(source: Seq<char>) -> bool;

/// `naga::front::wgsl::parse_str`, reduced to whether it succeeded. The
/// parser is a function of its text alone, so its verdict is named
/// `wgsl_parses`. Its documentation warns that deep nesting may exhaust a
/// small thread stack before the parser's own recursion limit turns it into an
/// error; that machine limit is not stated here.
#[verifier::external_body]
fn parse_wgsl(source: &str) -> (ok: bool)
    ensures
        ok == wgsl_parses(source@),
{
    naga::front::wgsl::parse_str(source).is_ok()
}

/// The text that replaces shader `index`, given what was read from its file
/// (`None` if the read failed) and whether that text `parses`.
pub open spec fn reload_one(
    source: ShaderSource,
    file: Option<String>,
    parses: bool,
    index: usize,
) -> Result<Seq<char>, ReloadFailure> {
    match source.path {
        None => Ok(source.wgsl@),
        Some(_) => match file {
            None => Err(ReloadFailure::Unreadable(index)),
            Some(text) => if parses {
                Ok(text@)
            } else {
                Err(ReloadFailure::InvalidWgsl(index))
            },
        },
    }
}

/// Whether a file was read and its text parses as WGSL.
pub open spec fn file_parses(file: Option<String>) -> bool {
    match file {
        Some(text) => wgsl_parses(text@),
        None => false,
    }
}

/// The outcome of reloading `sources`, where `files[i]` is what was read for
/// `sources[i]`: the new texts in order, or the first failure.
pub open spec fn reload_all(sources: Seq<ShaderSource>, files: Seq<Option<String>>) -> Result<
    Seq<Seq<char>>,
    ReloadFailure,
>
    decreases sources.len(),
{
    if sources.len() == 0 {
        Ok(Seq::empty())
    } else {
        let i = sources.len() - 1;
        match reload_all(sources.drop_last(), files) {
            Err(e) => Err(e),
            Ok(done) => match reload_one(sources[i], files[i], file_parses(files[i]), i as usize) {
                Err(e) => Err(e),
                Ok(text) => Ok(done.push(text)),
            },
        }
    }
}

/// A text result, as characters.
pub open spec fn text_outcome(r: Result<&str, ReloadFailure>) -> Result<Seq<char>, ReloadFailure> {
    match r {
        Ok(t) => Ok(t@),
        Err(e) => Err(e),
    }
}

/// A result of several texts, as characters.
pub open spec fn texts_outcome(r: Result<Vec<&str>, ReloadFailure>) -> Result<
    Seq<Seq<char>>,
    ReloadFailure,
> {
    match r {
        Ok(ts) => Ok(ts@.map_values(|t: &str| t@)),
        Err(e) => Err(e),
    }
}

/// A shader can be reloaded: it has no file, or its file was read and its
/// text parses as WGSL.
pub open spec fn reloadable(source: ShaderSource, file: Option<String>) -> bool {
    source.path is None || (file is Some && wgsl_parses(file->0@))
}

/// The text a reloadable shader runs after the reload: its embedded text
/// when it has no file, else the text read from its file.
pub open spec fn new_text(source: ShaderSource, file: Option<String>) -> Seq<char> {
    if source.path is None {
        source.wgsl@
    } else {
        file->0@
    }
}

/// The shader index a failure names.
pub open spec fn failure_index(e: ReloadFailure) -> int {
    match e {
        ReloadFailure::Unreadable(k) => k as int,
        ReloadFailure::InvalidWgsl(k) => k as int,
    }
}

/// `e` names the first shader of `sources` that cannot be reloaded, and why:
/// every shader before it can be, and it has a file that was not read
/// (`Unreadable`) or whose text does not parse (`InvalidWgsl`).
pub open spec fn first_failure(sources: Seq<ShaderSource>, files: Seq<Option<String>>, e: ReloadFailure) -> bool {
    let k = failure_index(e);
    &&& 0 <= k < sources.len()
    &&& sources[k].path is Some
    &&& forall|j: int| 0 <= j < k ==> #[trigger] reloadable(sources[j], files[j])
    &&& match e {
        ReloadFailure::Unreadable(_) => files[k] is None,
        ReloadFailure::InvalidWgsl(_) => files[k] is Some && !wgsl_parses(files[k]->0@),
    }
}

/// A shader with a file that was read and parses is reloaded to the file's
/// text, whatever text it runs now; a shader without a file keeps its
/// embedded text; an unread file or a text that does not parse fails at that
/// shader's index.
pub proof fn reload_one_takes_parsed_files(
    source: ShaderSource,
    file: Option<String>,
    parses: bool,
    index: usize,
)
    ensures
        source.path is None ==> reload_one(source, file, parses, index) == Ok::<
            Seq<char>,
            ReloadFailure,
        >(source.wgsl@),
        source.path is Some && file is Some && parses ==> reload_one(source, file, parses, index)
            == Ok::<Seq<char>, ReloadFailure>(file->0@),
        source.path is Some && file is None ==> reload_one(source, file, parses, index) == Err::<
            Seq<char>,
            ReloadFailure,
        >(ReloadFailure::Unreadable(index)),
        source.path is Some && file is Some && !parses ==> reload_one(source, file, parses, index)
            == Err::<Seq<char>, ReloadFailure>(ReloadFailure::InvalidWgsl(index)),
{
}

/// The law of the reload: it succeeds exactly when every shader can be
/// reloaded, and then each shader runs its new text, in order; otherwise it
/// names the first shader, in order, that cannot be reloaded.
pub proof fn lemma_reload_all_outcome(sources: Seq<ShaderSource>, files: Seq<Option<String>>)
    requires
        sources.len() <= files.len(),
        sources.len() <= usize::MAX,
    ensures
        reload_all(sources, files) is Ok <==> forall|i: int|
            0 <= i < sources.len() ==> #[trigger] reloadable(sources[i], files[i]),
        reload_all(sources, files) matches Ok(ts) ==> ts.len() == sources.len() && forall|i: int|
            0 <= i < sources.len() ==> #[trigger] ts[i] == new_text(sources[i], files[i]),
        reload_all(sources, files) matches Err(e) ==> first_failure(sources, files, e),
    decreases sources.len(),
{
    if sources.len() > 0 {
        let init = sources.drop_last();
        let last = sources.len() - 1;
        lemma_reload_all_outcome(init, files);
        assert forall|i: int| 0 <= i < init.len() implies #[trigger] init[i] == sources[i] by {}
        match reload_all(init, files) {
            Err(e) => {
                let k = failure_index(e);
                assert(init[k] == sources[k]);
                assert(!reloadable(init[k], files[k]));
                assert forall|j: int| 0 <= j < k implies #[trigger] reloadable(sources[j], files[j]) by {
                    assert(init[j] == sources[j]);
                    assert(reloadable(init[j], files[j]));
                }
            },
            Ok(done) => {
                if !reloadable(sources[last], files[last]) {
                    assert(!(forall|i: int|
                        0 <= i < sources.len() ==> #[trigger] reloadable(sources[i], files[i])));
                    assert forall|j: int| 0 <= j < last implies #[trigger] reloadable(sources[j], files[j]) by {
                        assert(reloadable(init[j], files[j]));
                    }
                } else {
                    let all = reload_all(sources, files)->Ok_0;
                    assert forall|i: int| 0 <= i < sources.len() implies #[trigger] all[i]
                        == new_text(sources[i], files[i]) by {
                        if i < last {
                            assert(all[i] == done[i]);
                        }
                    }
                    assert forall|i: int| 0 <= i < sources.len() implies #[trigger] reloadable(
                        sources[i],
                        files[i],
                    ) by {
                        if i < last {
                            assert(reloadable(init[i], files[i]));
                        }
                    }
                }
            },
        }
    }
}

/// The text that replaces shader `index`: its embedded text when it has no
/// file; else the text read from its file (`None` if the read failed), if
/// that text `parses`.
pub fn reload_text<'a>(
    source: &'a ShaderSource,
    file: &'a Option<String>,
    parses: bool,
    index: usize,
) -> (r: Result<&'a str, ReloadFailure>)
    ensures
        text_outcome(r) == reload_one(*source, *file, parses, index),
        source.path is None ==> text_outcome(r) == Ok::<Seq<char>, ReloadFailure>(source.wgsl@),
        source.path is Some && file is None ==> r == Err::<&str, ReloadFailure>(
            ReloadFailure::Unreadable(index),
        ),
        source.path is Some && file is Some && parses ==> text_outcome(r) == Ok::<
            Seq<char>,
            ReloadFailure,
        >(file->0@),
        source.path is Some && file is Some && !parses ==> r == Err::<&str, ReloadFailure>(
            ReloadFailure::InvalidWgsl(index),
        ),
{
    match &source.path {
        None => Ok(source.wgsl.as_str()),
        Some(_) => match file {
            None => Err(ReloadFailure::Unreadable(index)),
            Some(text) => if parses {
                Ok(text.as_str())
            } else {
                Err(ReloadFailure::InvalidWgsl(index))
            },
        },
    }
}

/// A failure stops the reload: what follows it does not change the outcome.
proof fn lemma_failure_persists(
    sources: Seq<ShaderSource>,
    files: Seq<Option<String>>,
    i: int,
    k: int,
)
    requires
        0 <= i <= k <= sources.len(),
        reload_all(sources.take(i), files) is Err,
    ensures
        reload_all(sources.take(k), files) == reload_all(sources.take(i), files),
    decreases k - i,
{
    if k > i {
        lemma_failure_persists(sources, files, i, k - 1);
        assert(sources.take(k).drop_last() =~= sources.take(k - 1));
    }
}

/// The texts that replace the running shaders after a change on disk, one
/// per shader in order, where `files[i]` is what was read from the file of
/// `sources[i]` (`None` if the read failed; ignored for a shader without a
/// file); or the first shader whose file could not be read or does not parse.
pub fn reload_sources<'a>(sources: &'a [ShaderSource], files: &'a [Option<String>]) -> (r: Result<
    Vec<&'a str>,
    ReloadFailure,
>)
    requires
        files@.len() == sources@.len(),
    ensures
        texts_outcome(r) == reload_all(sources@, files@),
        r is Ok <==> forall|i: int| 0 <= i < sources@.len() ==> #[trigger] reloadable(sources@[i], files@[i]),
        r matches Ok(ts) ==> ts@.len() == sources@.len() && forall|i: int|
            0 <= i < sources@.len() ==> (#[trigger] ts@[i])@ == new_text(sources@[i], files@[i]),
        r matches Err(e) ==> first_failure(sources@, files@, e),
{
    let n = sources.len();
    let mut texts: Vec<&'a str> = Vec::new();
    let mut i: usize = 0;
    assert(sources@.take(0) =~= Seq::<ShaderSource>::empty());
    assert(texts@.map_values(|t: &str| t@) =~= Seq::<Seq<char>>::empty());
    while i < n
        invariant
            n == sources@.len(),
            n == files@.len(),
            i <= n,
            reload_all(sources@.take(i as int), files@) == Ok::<Seq<Seq<char>>, ReloadFailure>(
                texts@.map_values(|t: &str| t@),
            ),
        decreases n - i,
    {
        let source = &sources[i];
        let file = &files[i];
        let parses = if source.path.is_some() {
            match file {
                Some(text) => parse_wgsl(text.as_str()),
                None => false,
            }
        } else {
            false
        };
        let ghost prefix = sources@.take(i + 1);
        proof {
            assert(prefix.drop_last() =~= sources@.take(i as int));
            assert(prefix[i as int] == sources@[i as int]);
        }
        match reload_text(source, file, parses, i) {
            Ok(t) => {
                let ghost before = texts@.map_values(|t: &str| t@);
                texts.push(t);
                assert(texts@.map_values(|t: &str| t@) =~= before.push(t@));
            },
            Err(e) => {
                proof {
                    lemma_failure_persists(sources@, files@, i + 1, n as int);
                    assert(sources@.take(n as int) =~= sources@);
                    lemma_reload_all_outcome(sources@, files@);
                }
                return Err(e);
            },
        }
        i = i + 1;
    }
    assert(sources@.take(n as int) =~= sources@);
    proof {
        lemma_reload_all_outcome(sources@, files@);
        assert forall|k: int| 0 <= k < texts@.len() implies (#[trigger] texts@[k])@ == texts@.map_values(
            |t: &str| t@,
        )[k] by {}
    }
    Ok(texts)
}

/// A reload that succeeds replaces every shader, in order: a shader without a
/// file by its embedded text, any other by the text read from its file, which
/// parses as WGSL.
pub proof fn reload_replaces_every_shader(sources: Seq<ShaderSource>, files: Seq<Option<String>>)
    requires
        files.len() == sources.len(),
        reload_all(sources, files) is Ok,
    ensures
        reload_all(sources, files)->Ok_0.len() == sources.len(),
        forall|i: int|
            0 <= i < sources.len() ==> match (#[trigger] sources[i]).path {
                None => reload_all(sources, files)->Ok_0[i] == sources[i].wgsl@,
                Some(_) => files[i] is Some && reload_all(sources, files)->Ok_0[i] == files[i]->0@
                    && wgsl_parses(files[i]->0@),
            },
    decreases sources.len(),
{
    if sources.len() > 0 {
        let init = sources.drop_last();
        let last = sources.len() - 1;
        assert(reload_all(init, files) is Ok);
        lemma_reload_files_prefix(init, files);
        reload_replaces_every_shader(init, files.take(init.len() as int));
        let done = reload_all(init, files)->Ok_0;
        let all = reload_all(sources, files)->Ok_0;
        assert forall|i: int| 0 <= i < sources.len() implies match (#[trigger] sources[i]).path {
            None => all[i] == sources[i].wgsl@,
            Some(_) => files[i] is Some && all[i] == files[i]->0@ && wgsl_parses(files[i]->0@),
        } by {
            if i < last {
                assert(init[i] == sources[i]);
                assert(files.take(init.len() as int)[i] == files[i]);
                assert(all[i] == done[i]);
            }
        }
    }
}

/// Only the first `sources.len()` files matter to a reload.
proof fn lemma_reload_files_prefix(sources: Seq<ShaderSource>, files: Seq<Option<String>>)
    requires
        sources.len() <= files.len(),
    ensures
        reload_all(sources, files.take(sources.len() as int)) == reload_all(sources, files),
    decreases sources.len(),
{
    if sources.len() > 0 {
        let init = sources.drop_last();
        lemma_reload_files_prefix(init, files);
        lemma_reload_files_prefix(init, files.take(sources.len() as int));
        assert(files.take(sources.len() as int).take(init.len() as int) =~= files.take(
            init.len() as int,
        ));
        assert(files.take(sources.len() as int)[sources.len() - 1] == files[sources.len() - 1]);
    }
}

} // verus!
