//! Where a source file is staged and which commands build and run it.

use vstd::prelude::*;
use crate::paths::{file_stem, file_stem_of, join, joined_path};
use crate::sandbox::error::{SandboxError, SandboxErrorView};
use crate::sandbox::language::{compiled_extension, compiler, runner, source_extension};
use crate::sandbox::language::{get_compiled_extension, get_compiler, get_runner};
use crate::sandbox::language::{get_source_extension, Language};
use crate::text::{appended, owned, views};

verus! {

/// The places of one staged source file.
#[derive(Debug)]
pub struct SandboxFiles {
    /// The copy of the source file inside the staging directory on the host.
    pub host_src: String,
    /// The source file as the container sees it, relative to its working
    /// directory.
    pub container_src: String,
    /// The file that the runner is given, relative to the working directory.
    pub container_bin: String,
}

pub struct SandboxFilesView {
    pub host_src: Seq<char>,
    pub container_src: Seq<char>,
    pub container_bin: Seq<char>,
}

impl View for SandboxFiles {
    type V = SandboxFilesView;

    open spec fn view(&self) -> SandboxFilesView {
        SandboxFilesView {
            host_src: self.host_src@,
            container_src: self.container_src@,
            container_bin: self.container_bin@,
        }
    }
}

/// The commands of one run: the build command is empty where the language
/// needs no build.
#[derive(Debug)]
pub struct Commands {
    pub build_cmd: Vec<String>,
    pub run_cmd: Vec<String>,
}

pub struct CommandsView {
    pub build_cmd: Seq<Seq<char>>,
    pub run_cmd: Seq<Seq<char>>,
}

impl View for Commands {
    type V = CommandsView;

    open spec fn view(&self) -> CommandsView {
        CommandsView { build_cmd: views(self.build_cmd@), run_cmd: views(self.run_cmd@) }
    }
}

/// The name of a staged file: the whole stem, then a dot and the extension.
/// Without an extension the name is the stem alone. A dot inside the stem
/// stays where it is.
pub open spec fn staged_name(stem: Seq<char>, extension: Seq<char>) -> Seq<char> {
    if extension.len() == 0 {
        stem
    } else {
        stem + seq!['.'] + extension
    }
}

/// The places of a source file with the given stem: its name is the stem
/// with the language's source extension, inside the staging directory on the
/// host and bare inside the container; the runner is given the stem with the
/// language's compiled extension.
pub open spec fn staged_files(stem: Seq<char>, lang: Language, staging_dir: Seq<char>)
    -> SandboxFilesView {
    SandboxFilesView {
        host_src: joined_path(staging_dir, staged_name(stem, source_extension(lang))),
        container_src: staged_name(stem, source_extension(lang)),
        container_bin: staged_name(stem, compiled_extension(lang)),
    }
}

/// The build command: the compiler and the source file, or nothing.
pub open spec fn build_command(source_file: Seq<char>, lang: Language) -> Seq<Seq<char>> {
    match compiler(lang) {
        Some(program) => seq![program, source_file],
        None => Seq::empty(),
    }
}

/// The run command: the runner and the file it runs.
pub open spec fn run_command(compiled_file: Seq<char>, lang: Language) -> Seq<Seq<char>> {
    seq![runner(lang), compiled_file]
}

pub open spec fn commands_for(files: SandboxFilesView, lang: Language) -> CommandsView {
    CommandsView {
        build_cmd: build_command(files.container_src, lang),
        run_cmd: run_command(files.container_bin, lang),
    }
}

/// A staged name begins with the whole stem, dots and all, and where there
/// is an extension it ends with a dot and that extension.
pub proof fn lemma_staged_name_keeps_stem(stem: Seq<char>, extension: Seq<char>)
    ensures
        staged_name(stem, extension).subrange(0, stem.len() as int) == stem,
        extension.len() == 0 ==> staged_name(stem, extension) == stem,
        extension.len() > 0 ==> staged_name(stem, extension).len() == stem.len() + 1
            + extension.len() && staged_name(stem, extension)[stem.len() as int] == '.'
            && staged_name(stem, extension).subrange(
            stem.len() as int + 1,
            stem.len() as int + 1 + extension.len() as int,
        ) == extension,
{
}

/// Puts a stem and an extension together into the name of a staged file.
pub fn name_with_extension(stem: &str, extension: &str) -> (name: String)
    ensures
        name@ == staged_name(stem@, extension@),
{
    if extension.is_empty() {
        owned(stem)
    } else {
        let dotted = appended(stem, ".");
        proof {
            reveal_strlit(".");
            assert("."@ == seq!['.']);
        }
        appended(dotted.as_str(), extension)
    }
}

/// Works out where the source file with a stem is staged.
pub fn stage_files(stem: &str, lang: Language, temp_dir: &str) -> (files: SandboxFiles)
    ensures
        files@ == staged_files(stem@, lang, temp_dir@),
{
    let container_src = name_with_extension(stem, get_source_extension(lang));
    let container_bin = name_with_extension(stem, get_compiled_extension(lang));
    let host_src = join(temp_dir, container_src.as_str());
    SandboxFiles { host_src, container_src, container_bin }
}

/// Works out where a source file is staged. The path must end in a file
/// name: one without a stem is refused with `InvalidCodeFile`, and nothing
/// else is.
pub fn get_sandbox_files(code_file: &str, lang: Language, temp_dir: &str) -> (files: Result<
    SandboxFiles,
    SandboxError,
>)
    ensures
        file_stem_of(code_file@) is None ==> (files matches Err(e) && e@
            == SandboxErrorView::InvalidCodeFile(code_file@)),
        file_stem_of(code_file@) matches Some(stem) ==> (files matches Ok(f) && f@
            == staged_files(stem, lang, temp_dir@)),
{
    match file_stem(code_file) {
        Some(stem) => Ok(stage_files(stem.as_str(), lang, temp_dir)),
        None => Err(SandboxError::InvalidCodeFile(owned(code_file))),
    }
}

pub fn get_build_cmd(source_file: &str, lang: Language) -> (cmd: Vec<String>)
    ensures
        views(cmd@) == build_command(source_file@, lang),
{
    let mut cmd: Vec<String> = Vec::new();
    match get_compiler(lang) {
        Some(program) => {
            cmd.push(owned(program));
            cmd.push(owned(source_file));
            assert(views(cmd@) =~= build_command(source_file@, lang));
        },
        None => {
            assert(views(cmd@) =~= build_command(source_file@, lang));
        },
    }
    cmd
}

pub fn get_run_cmd(compiled_file: &str, lang: Language) -> (cmd: Vec<String>)
    ensures
        views(cmd@) == run_command(compiled_file@, lang),
{
    let mut cmd: Vec<String> = Vec::new();
    cmd.push(owned(get_runner(lang)));
    cmd.push(owned(compiled_file));
    assert(views(cmd@) =~= run_command(compiled_file@, lang));
    cmd
}

pub fn get_commands(sandbox_files: &SandboxFiles, lang: Language) -> (commands: Commands)
    ensures
        commands@ == commands_for(sandbox_files@, lang),
{
    Commands {
        build_cmd: get_build_cmd(sandbox_files.container_src.as_str(), lang),
        run_cmd: get_run_cmd(sandbox_files.container_bin.as_str(), lang),
    }
}

} // verus!
