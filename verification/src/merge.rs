//! Collecting the files of a pipeline and judging what the merge tool made
//! of them.

use vstd::prelude::*;
use crate::error::{outcome, RepipeError, RepipeErrorView};
use crate::text::{decode_text, has_suffix, terminated};
use crate::yaml::{parse_yaml, yaml_document};

verus! {

/// A file found below the pipeline directory.
#[derive(Clone, Debug, PartialEq, Eq)]
pub struct PipelineFile {
    /// The names of the directories between the pipeline directory and the
    /// file, outermost first.
    pub directories: Vec<String>,
    /// The file's own name.
    pub name: String,
}

/// The mathematical content of a [`PipelineFile`].
pub ghost struct PipelineFileView {
    pub directories: Seq<Seq<char>>,
    pub name: Seq<char>,
}

impl View for PipelineFile {
    type V = PipelineFileView;

    open spec fn view(&self) -> PipelineFileView {
        PipelineFileView { directories: self.directories.deep_view(), name: self.name@ }
    }
}

/// The views of a list of files.
pub open spec fn file_views(files: Seq<PipelineFile>) -> Seq<PipelineFileView> {
    files.map_values(|f: PipelineFile| f@)
}

/// The base file's path below the CI directory.
pub open spec fn base_path() -> Seq<char> {
    "pipeline/base.yml"@
}

/// The path below the CI directory under which the merged pipeline is kept
/// while the command runs.
pub open spec fn deploy_artifact() -> Seq<char> {
    ".deploy.yml"@
}

/// The path below the CI directory under which the merged pipeline is left
/// in debug mode.
pub open spec fn debug_artifact() -> Seq<char> {
    "repipe-debug.yml"@
}

/// Directories of this name are left out of the walk, with all they hold.
pub open spec fn excluded_directory(name: Seq<char>) -> bool {
    name == "custom"@ || name == "optional"@
}

/// A file name with the extension `yml`: it ends in `.yml`, and something
/// stands before that.
pub open spec fn yaml_name(name: Seq<char>) -> bool {
    name.len() > 4 && has_suffix(name, ".yml"@)
}

impl PipelineFileView {
    /// The base file itself: `base.yml`, directly in the pipeline directory.
    pub open spec fn is_base(self) -> bool {
        self.directories.len() == 0 && self.name == "base.yml"@
    }

    /// No directory on the way to the file is left out.
    pub open spec fn reachable(self) -> bool {
        forall|i: int|
            0 <= i < self.directories.len() ==> !excluded_directory(#[trigger] self.directories[i])
    }

    /// The file is merged after the base file.
    pub open spec fn selected(self) -> bool {
        yaml_name(self.name) && !self.is_base() && self.reachable()
    }

    /// The file's path below the CI directory.
    pub open spec fn relative_path(self) -> Seq<char> {
        "pipeline/"@ + terminated(self.directories, "/"@) + self.name
    }
}

/// The paths of the files that are merged after the base file, in the order
/// in which the files were found.
pub open spec fn merge_inputs(files: Seq<PipelineFileView>) -> Seq<Seq<char>> {
    files.filter(|f: PipelineFileView| f.selected()).map_values(
        |f: PipelineFileView| f.relative_path(),
    )
}

/// The merge tool's arguments: the operation, the policy to append array
/// elements, the base file, the other files, and the settings file last.
pub open spec fn merge_arguments(files: Seq<PipelineFileView>, settings: Seq<char>) -> Seq<
    Seq<char>,
> {
    seq!["merge"@, "--fallback-append"@, base_path()] + merge_inputs(files) + seq![settings]
}

/// The merge tool's arguments to pick the metadata block out of a document
/// that it reads from its input.
pub open spec fn cherry_pick_arguments() -> Seq<Seq<char>> {
    seq!["merge"@, "--skip-eval"@, "--cherry-pick"@, "meta"@, "-"@]
}

/// What one more file adds to the merge's inputs.
pub proof fn lemma_merge_inputs_push(files: Seq<PipelineFileView>, file: PipelineFileView)
    ensures
        merge_inputs(files.push(file)) == if file.selected() {
            merge_inputs(files).push(file.relative_path())
        } else {
            merge_inputs(files)
        },
{
    reveal(Seq::filter);
    assert(files.push(file).drop_last() =~= files);
    let kept = files.filter(|f: PipelineFileView| f.selected());
    if file.selected() {
        assert(kept.push(file).map_values(|f: PipelineFileView| f.relative_path())
            =~= kept.map_values(|f: PipelineFileView| f.relative_path()).push(
            file.relative_path(),
        ));
    }
}

/// Whether directories of this name are left out of the walk.
pub fn is_excluded_directory(name: &str) -> (r: bool)
    ensures
        r == excluded_directory(name@),
{
    name.eq("custom") || name.eq("optional")
}

/// Whether the file name has the extension `yml`.
pub fn has_yaml_extension(name: &str) -> (r: bool)
    ensures
        r == yaml_name(name@),
{
    let n = name.unicode_len();
    proof {
        reveal_strlit(".yml");
    }
    if n <= 4 {
        return false;
    }
    let found = name.get_char(n - 4) == '.' && name.get_char(n - 3) == 'y' && name.get_char(n - 2)
        == 'm' && name.get_char(n - 1) == 'l';
    proof {
        let tail = name@.subrange(n - 4, n as int);
        if found {
            assert(tail =~= ".yml"@);
        } else {
            assert(tail[0] == name@[n - 4]);
            assert(tail[1] == name@[n - 3]);
            assert(tail[2] == name@[n - 2]);
            assert(tail[3] == name@[n - 1]);
        }
    }
    found
}

impl PipelineFile {
    /// Whether every directory on the way to the file is walked.
    pub fn reachable(&self) -> (r: bool)
        ensures
            r == self@.reachable(),
    {
        let mut i: usize = 0;
        while i < self.directories.len()
            invariant
                i <= self.directories.len(),
                forall|j: int| 0 <= j < i ==> !excluded_directory(#[trigger] self@.directories[j]),
            decreases self.directories.len() - i,
        {
            if is_excluded_directory(self.directories[i].as_str()) {
                assert(excluded_directory(self@.directories[i as int]));
                return false;
            }
            i = i + 1;
        }
        true
    }

    /// Whether the file is the base file itself.
    pub fn is_base(&self) -> (r: bool)
        ensures
            r == self@.is_base(),
    {
        self.directories.len() == 0 && self.name.as_str().eq("base.yml")
    }

    /// Whether the file is merged after the base file: it has the extension
    /// `yml`, is not the base file, and lies in no directory that is left
    /// out.
    pub fn selected(&self) -> (r: bool)
        ensures
            r == self@.selected(),
    {
        has_yaml_extension(self.name.as_str()) && !self.is_base() && self.reachable()
    }

    /// The file's path below the CI directory, with `/` between its parts.
    pub fn relative_path(&self) -> (r: String)
        ensures
            r@ == self@.relative_path(),
    {
        let mut out = "pipeline/".to_owned();
        let mut i: usize = 0;
        while i < self.directories.len()
            invariant
                i <= self.directories.len(),
                out@ == "pipeline/"@ + terminated(self@.directories.take(i as int), "/"@),
            decreases self.directories.len() - i,
        {
            proof {
                let all = self@.directories;
                assert(all.take(i + 1).drop_last() =~= all.take(i as int));
                assert(all.take(i + 1).last() == self.directories[i as int]@);
            }
            out.append(self.directories[i].as_str());
            out.append("/");
            i = i + 1;
            assert(out@ =~= "pipeline/"@ + terminated(self@.directories.take(i as int), "/"@));
        }
        assert(self@.directories.take(i as int) =~= self@.directories);
        out.append(self.name.as_str());
        out
    }
}

/// The merge tool's arguments for the files that the walk found and the
/// chosen settings file: the base file first, then every other selected
/// file in the order of the walk, then the settings file.
pub fn merge_command(files: &Vec<PipelineFile>, settings: &str) -> (r: Vec<String>)
    ensures
        r.deep_view() == merge_arguments(file_views(files@), settings@),
{
    let mut out: Vec<String> = Vec::new();
    out.push("merge".to_owned());
    out.push("--fallback-append".to_owned());
    out.push("pipeline/base.yml".to_owned());
    let ghost head = seq!["merge"@, "--fallback-append"@, base_path()];
    assert(out.deep_view() =~= head);
    assert(file_views(files@).take(0) =~= Seq::<PipelineFileView>::empty());
    proof {
        reveal(Seq::filter);
    }
    assert(merge_inputs(Seq::<PipelineFileView>::empty()) =~= Seq::<Seq<char>>::empty());
    let mut i: usize = 0;
    while i < files.len()
        invariant
            i <= files.len(),
            head == seq!["merge"@, "--fallback-append"@, base_path()],
            out.deep_view() == head + merge_inputs(file_views(files@).take(i as int)),
        decreases files.len() - i,
    {
        proof {
            let all = file_views(files@);
            assert(all.take(i + 1) =~= all.take(i as int).push(files[i as int]@));
            lemma_merge_inputs_push(all.take(i as int), files[i as int]@);
        }
        let ghost before = out.deep_view();
        if files[i].selected() {
            out.push(files[i].relative_path());
            assert(out.deep_view() =~= before.push(files[i as int]@.relative_path()));
        }
        i = i + 1;
        assert(out.deep_view() =~= head + merge_inputs(file_views(files@).take(i as int)));
    }
    assert(file_views(files@).take(i as int) =~= file_views(files@));
    let ghost before = out.deep_view();
    out.push(settings.to_owned());
    assert(out.deep_view() =~= before.push(settings@));
    assert(out.deep_view() =~= merge_arguments(file_views(files@), settings@));
    out
}

/// The merge tool's arguments to pick the metadata block.
pub fn cherry_pick_command() -> (r: Vec<String>)
    ensures
        r.deep_view() == cherry_pick_arguments(),
{
    let mut out: Vec<String> = Vec::new();
    out.push("merge".to_owned());
    out.push("--skip-eval".to_owned());
    out.push("--cherry-pick".to_owned());
    out.push("meta".to_owned());
    out.push("-".to_owned());
    assert(out.deep_view() =~= cherry_pick_arguments());
    out
}

/// What the merge yields, given whether the tool succeeded, the text that
/// it printed if that is text at all, whether that text is well-formed, and
/// what the tool said on failure.
pub open spec fn merged_document(
    success: bool,
    output: Option<Seq<char>>,
    well_formed: bool,
    diagnostics: Seq<char>,
) -> Result<Seq<char>, RepipeErrorView> {
    if !success {
        Err(RepipeErrorView::MergeFailed { diagnostics })
    } else if output is Some && well_formed {
        Ok(output.unwrap())
    } else {
        Err(RepipeErrorView::InvalidMergedDocument)
    }
}

/// The text that `bytes` encode, where they are valid UTF-8.
pub open spec fn decoded(bytes: Seq<u8>) -> Option<Seq<char>> {
    if vstd::utf8::valid_utf8(bytes) {
        Some(vstd::utf8::decode_utf8(bytes))
    } else {
        None
    }
}

/// Judges a finished merge from plain facts: `MergeFailed` with the tool's
/// diagnostics where it did not succeed; `InvalidMergedDocument` where it
/// printed no text or text that is not well-formed; else the document.
pub fn judge_merge(success: bool, output: Option<String>, well_formed: bool, diagnostics: String) -> (r:
    Result<String, RepipeError>)
    ensures
        outcome(r) == merged_document(success, output.deep_view(), well_formed, diagnostics@),
{
    if !success {
        return Err(RepipeError::MergeFailed { diagnostics });
    }
    match output {
        Some(text) => {
            if well_formed {
                Ok(text)
            } else {
                Err(RepipeError::InvalidMergedDocument)
            }
        },
        None => Err(RepipeError::InvalidMergedDocument),
    }
}

/// Judges a finished merge from what the tool printed: the output must be
/// UTF-8 text that the YAML parser accepts.
pub fn check_merge(success: bool, output: Vec<u8>, diagnostics: String) -> (r: Result<
    String,
    RepipeError,
>)
    ensures
        outcome(r) == merged_document(
            success,
            decoded(output@),
            decoded(output@) is Some && yaml_document(decoded(output@).unwrap()) is Some,
            diagnostics@,
        ),
        !success ==> r is Err,
{
    if !success {
        return judge_merge(false, None, false, diagnostics);
    }
    let text = decode_text(output);
    let well_formed = match &text {
        Some(t) => parse_yaml(t.as_str()).is_ok(),
        None => false,
    };
    judge_merge(true, text, well_formed, diagnostics)
}

} // verus!
