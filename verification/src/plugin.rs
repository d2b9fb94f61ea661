//! The entry point: one call per file, from the host's configuration and
//! the file's path and position table to the annotated program.

use vstd::prelude::*;
use crate::annotation::{standard_strategy, AnnotationStrategy, AnnotationStrategyView, Context};
use crate::ast::{IdentView, Program, ProgramView};
use crate::model::{annotated_program, annotates_in_program, file_binding_symbol};
use crate::source_map::{Loc, SourceMap};
use crate::transform::InspectorPlugin;
use crate::utils::{canonical_file_name, text_view};

verus! {

/// The options that the host can set.
#[derive(PartialEq, Eq, Debug)]
pub struct PluginConfig {
    /// The project root: file names are reported relative to it.
    pub project_cwd: Option<String>,
}

impl Default for PluginConfig {
    /// No project root: file names are reported as they are.
    fn default() -> (config: PluginConfig)
        ensures
            config.project_cwd is None,
    {
        PluginConfig { project_cwd: None }
    }
}

/// What the host hands over with a program.
#[derive(PartialEq, Eq, Debug)]
pub struct TransformMetadata {
    /// The configuration, where the host had one that could be read.
    pub plugin_config: Option<PluginConfig>,
    /// The raw path of the file, where it has one.
    pub file_path: Option<String>,
    /// The entries of the file's position table.
    pub positions: Vec<Loc>,
}

/// The project root in force: the configured one, or none where there is
/// no configuration.
pub open spec fn configured_root(config: Option<PluginConfig>) -> Option<Seq<char>> {
    match config {
        Some(c) => text_view(c.project_cwd),
        None => None,
    }
}

/// What the annotations of a file depend on.
pub open spec fn file_context(
    file_path: Seq<char>,
    project_cwd: Option<Seq<char>>,
    positions: Seq<Loc>,
    strategy: AnnotationStrategyView,
) -> Context {
    Context {
        file_name: canonical_file_name(file_path, project_cwd),
        locs: positions,
        key: strategy.key,
        shape: strategy.shape,
    }
}

/// The symbol that a fresh walk over `program` ends with: the file's own,
/// if the strategy shares the file's name and some element is annotated.
pub open spec fn shared_symbol(c: Context, share_file_binding: bool, program: ProgramView) -> Option<
    IdentView,
> {
    if share_file_binding && annotates_in_program(c, program) {
        Some(file_binding_symbol(c))
    } else {
        None
    }
}

/// A program after a fresh walk under `strategy`. Without a file path
/// nothing is done.
pub open spec fn transformed(
    program: ProgramView,
    file_path: Option<Seq<char>>,
    project_cwd: Option<Seq<char>>,
    positions: Seq<Loc>,
    strategy: AnnotationStrategyView,
) -> ProgramView {
    match file_path {
        Some(path) => {
            let c = file_context(path, project_cwd, positions, strategy);
            annotated_program(c, program, shared_symbol(c, strategy.share_file_binding, program))
        },
        None => program,
    }
}

/// The project root in force for a configuration.
pub fn project_root(config: Option<PluginConfig>) -> (root: Option<String>)
    ensures
        text_view(root) == configured_root(config),
{
    match config {
        Some(c) => c.project_cwd,
        None => PluginConfig::default().project_cwd,
    }
}

/// Annotates every markup element of `program` under `strategy`. A file
/// without a path comes back unchanged.
pub fn transform_program(
    program: Program,
    metadata: TransformMetadata,
    strategy: AnnotationStrategy,
) -> (out: Program)
    ensures
        out@ == transformed(
            program@,
            text_view(metadata.file_path),
            configured_root(metadata.plugin_config),
            metadata.positions@,
            strategy@,
        ),
        metadata.file_path is None ==> out == program,
{
    match metadata.file_path {
        Some(path) => {
            let project_cwd = project_root(metadata.plugin_config);
            let source_map = SourceMap::new(path, metadata.positions);
            let mut visitor = InspectorPlugin::with_strategy(project_cwd, source_map, strategy);
            let mut program = program;
            visitor.visit_mut_program(&mut program);
            program
        },
        None => program,
    }
}

/// Annotates every markup element of `program` with a `data-hps-source`
/// attribute of the form `file:line:column:tag`. A file without a path
/// comes back unchanged.
pub fn inspector_swc_plugin(program: Program, metadata: TransformMetadata) -> (out: Program)
    ensures
        out@ == transformed(
            program@,
            text_view(metadata.file_path),
            configured_root(metadata.plugin_config),
            metadata.positions@,
            standard_strategy(),
        ),
        metadata.file_path is None ==> out == program,
{
    transform_program(program, metadata, AnnotationStrategy::standard())
}

} // verus!
