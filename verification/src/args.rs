//! Argument records of the commands, and commands together with their arguments.

use vstd::prelude::*;

use crate::command::{Command, Shape};

verus! {

/// The types of the argument fields that the bridge hands on without looking inside.
pub trait Payloads: Sized {
    type SourceWatchConfig;

    type EmbeddingConfig;

    type WebSearchConfig;

    type AnyTxtConfig;

    type Vector;

    type Chunk;

    type AgentRequest;

    type ProxyConfig;
}

#[derive(Debug, PartialEq, Eq)]
pub struct PathArgs {
    pub path: String,
}

#[derive(Debug, PartialEq, Eq)]
pub struct ReadFileArgs {
    pub path: String,
    pub extract_images: Option<bool>,
}

#[derive(Debug, PartialEq, Eq)]
pub struct WriteFileArgs {
    pub path: String,
    pub contents: String,
}

#[derive(Debug, PartialEq, Eq)]
pub struct WriteBase64Args {
    pub path: String,
    pub base64: String,
}

#[derive(Debug, PartialEq, Eq)]
pub struct ListDirectoryArgs {
    pub path: String,
    pub include_hidden: Option<bool>,
    pub max_depth: Option<usize>,
}

#[derive(Debug, PartialEq, Eq)]
pub struct SourceDestArgs {
    pub source: String,
    pub destination: String,
}

#[derive(Debug, PartialEq, Eq)]
pub struct RelatedPagesArgs {
    pub project_path: String,
    pub source_name: String,
}

#[derive(Debug, PartialEq, Eq)]
pub struct CreateProjectArgs {
    pub name: String,
    pub path: String,
}

pub struct WatcherArgs<P: Payloads> {
    pub project_id: String,
    pub project_path: String,
    pub source_watch_config: Option<P::SourceWatchConfig>,
}

#[derive(Debug, PartialEq, Eq)]
pub struct ProjectPathArgs {
    pub project_path: String,
}

#[derive(Debug, PartialEq, Eq)]
pub struct FileTaskArgs {
    pub project_id: String,
    pub project_path: String,
    pub task_id: String,
}

#[derive(Debug, PartialEq, Eq)]
pub struct FileHistoryArgs {
    pub project_path: String,
    pub file_path: String,
}

#[derive(Debug, PartialEq, Eq)]
pub struct RestoreHistoryArgs {
    pub project_path: String,
    pub file_path: String,
    pub entry_id: String,
}

pub struct EmbeddingFetchArgs<P: Payloads> {
    pub text: String,
    pub cfg: P::EmbeddingConfig,
    pub max_retries: Option<usize>,
}

pub struct WebSearchArgs<P: Payloads> {
    pub query: String,
    pub config: P::WebSearchConfig,
    pub max_results: Option<usize>,
}

pub struct AnyTxtSearchArgs<P: Payloads> {
    pub query: String,
    pub config: P::AnyTxtConfig,
    pub max_results: Option<usize>,
}

#[derive(Debug, PartialEq, Eq)]
pub struct PageArgs {
    pub project_path: String,
    pub page_id: String,
}

pub struct VectorUpsertArgs<P: Payloads> {
    pub project_path: String,
    pub page_id: String,
    pub embedding: P::Vector,
}

pub struct VectorSearchArgs<P: Payloads> {
    pub project_path: String,
    pub query_embedding: P::Vector,
    pub top_k: usize,
}

pub struct ChunkUpsertArgs<P: Payloads> {
    pub project_path: String,
    pub page_id: String,
    pub chunks: Vec<P::Chunk>,
}

#[derive(Debug, PartialEq, Eq)]
pub struct ExtractSaveArgs {
    pub source_path: String,
    pub dest_dir: String,
    pub rel_to: String,
}

pub struct AgentTurnArgs<P: Payloads> {
    pub project_id: String,
    pub request: P::AgentRequest,
}

#[derive(Debug, PartialEq, Eq)]
pub struct AgentCancelArgs {
    pub project_id: String,
    pub session_id: String,
    pub run_id: Option<String>,
}

#[derive(Debug, PartialEq, Eq)]
pub struct AgentSessionArgs {
    pub project_id: String,
    pub session_id: String,
    pub limit: Option<usize>,
}

#[derive(Debug, PartialEq, Eq)]
pub struct ProjectIdArgs {
    pub project_id: String,
}

pub struct SearchProjectArgs<P: Payloads> {
    pub project_path: String,
    pub query: String,
    pub top_k: Option<usize>,
    pub include_content: Option<bool>,
    pub query_embedding: Option<P::Vector>,
    pub embedding_config: Option<P::EmbeddingConfig>,
}

/// A decoded argument record of any kind.
pub enum Args<P: Payloads> {
    Nothing,
    Proxy(P::ProxyConfig),
    Path(PathArgs),
    ReadFile(ReadFileArgs),
    WriteFile(WriteFileArgs),
    WriteBase64(WriteBase64Args),
    ListDirectory(ListDirectoryArgs),
    SourceDest(SourceDestArgs),
    RelatedPages(RelatedPagesArgs),
    CreateProject(CreateProjectArgs),
    Watcher(WatcherArgs<P>),
    ProjectPath(ProjectPathArgs),
    FileTask(FileTaskArgs),
    FileHistory(FileHistoryArgs),
    RestoreHistory(RestoreHistoryArgs),
    EmbeddingFetch(EmbeddingFetchArgs<P>),
    WebSearch(WebSearchArgs<P>),
    AnyTxtSearch(AnyTxtSearchArgs<P>),
    Page(PageArgs),
    VectorUpsert(VectorUpsertArgs<P>),
    VectorSearch(VectorSearchArgs<P>),
    ChunkUpsert(ChunkUpsertArgs<P>),
    ExtractSave(ExtractSaveArgs),
    AgentTurn(AgentTurnArgs<P>),
    AgentCancel(AgentCancelArgs),
    AgentSession(AgentSessionArgs),
    ProjectId(ProjectIdArgs),
    SearchProject(SearchProjectArgs<P>),
}

impl<P: Payloads> Args<P> {
    /// The kind of this record.
    pub open spec fn shape(self) -> Shape {
        match self {
            Args::Nothing => Shape::Nothing,
            Args::Proxy(_) => Shape::Proxy,
            Args::Path(_) => Shape::Path,
            Args::ReadFile(_) => Shape::ReadFile,
            Args::WriteFile(_) => Shape::WriteFile,
            Args::WriteBase64(_) => Shape::WriteBase64,
            Args::ListDirectory(_) => Shape::ListDirectory,
            Args::SourceDest(_) => Shape::SourceDest,
            Args::RelatedPages(_) => Shape::RelatedPages,
            Args::CreateProject(_) => Shape::CreateProject,
            Args::Watcher(_) => Shape::Watcher,
            Args::ProjectPath(_) => Shape::ProjectPath,
            Args::FileTask(_) => Shape::FileTask,
            Args::FileHistory(_) => Shape::FileHistory,
            Args::RestoreHistory(_) => Shape::RestoreHistory,
            Args::EmbeddingFetch(_) => Shape::EmbeddingFetch,
            Args::WebSearch(_) => Shape::WebSearch,
            Args::AnyTxtSearch(_) => Shape::AnyTxtSearch,
            Args::Page(_) => Shape::Page,
            Args::VectorUpsert(_) => Shape::VectorUpsert,
            Args::VectorSearch(_) => Shape::VectorSearch,
            Args::ChunkUpsert(_) => Shape::ChunkUpsert,
            Args::ExtractSave(_) => Shape::ExtractSave,
            Args::AgentTurn(_) => Shape::AgentTurn,
            Args::AgentCancel(_) => Shape::AgentCancel,
            Args::AgentSession(_) => Shape::AgentSession,
            Args::ProjectId(_) => Shape::ProjectId,
            Args::SearchProject(_) => Shape::SearchProject,
        }
    }
}

/// A command with its arguments: everything that is needed to run it.
pub enum Call<P: Payloads> {
    ReadFile(ReadFileArgs),
    WriteFile(WriteFileArgs),
    WriteFileAtomic(WriteFileArgs),
    WriteFileBase64(WriteBase64Args),
    ListDirectory(ListDirectoryArgs),
    CopyFile(SourceDestArgs),
    CopyDirectory(SourceDestArgs),
    PreprocessFile(PathArgs),
    DeleteFile(PathArgs),
    CreateDirectory(PathArgs),
    FileExists(PathArgs),
    GetFileModifiedTime(PathArgs),
    GetFileSize(PathArgs),
    GetFileMd5(PathArgs),
    ReadFileAsBase64(PathArgs),
    FindRelatedWikiPages(RelatedPagesArgs),
    CreateProject(CreateProjectArgs),
    OpenProject(PathArgs),
    SearchProject(SearchProjectArgs<P>),
    ListFileHistory(FileHistoryArgs),
    RestoreFileHistory(RestoreHistoryArgs),
    StartProjectFileWatcher(WatcherArgs<P>),
    StopProjectFileWatcher,
    RescanProjectFiles(WatcherArgs<P>),
    GetFileChangeQueue(ProjectPathArgs),
    RetryFileChangeTask(FileTaskArgs),
    IgnoreFileChangeTask(FileTaskArgs),
    EmbeddingFetch(EmbeddingFetchArgs<P>),
    WebSearch(WebSearchArgs<P>),
    AnyTxtSearch(AnyTxtSearchArgs<P>),
    VectorUpsert(VectorUpsertArgs<P>),
    VectorSearch(VectorSearchArgs<P>),
    VectorDelete(PageArgs),
    VectorCount(ProjectPathArgs),
    VectorUpsertChunks(ChunkUpsertArgs<P>),
    VectorSearchChunks(VectorSearchArgs<P>),
    VectorDeletePage(PageArgs),
    VectorCountChunks(ProjectPathArgs),
    VectorClearChunks(ProjectPathArgs),
    VectorOptimizeChunks(ProjectPathArgs),
    VectorLegacyRowCount(ProjectPathArgs),
    VectorDropLegacy(ProjectPathArgs),
    ExtractPdfImagesCmd(PathArgs),
    ExtractOfficeImagesCmd(PathArgs),
    ExtractAndSavePdfImagesCmd(ExtractSaveArgs),
    ExtractAndSaveOfficeImagesCmd(ExtractSaveArgs),
    AgentStartTurn(AgentTurnArgs<P>),
    AgentStartTurnStream(AgentTurnArgs<P>),
    AgentCancelTurn(AgentCancelArgs),
    AgentGetSession(AgentSessionArgs),
    AgentListSessions(ProjectIdArgs),
    AgentListSkills(ProjectPathArgs),
    SetProxyEnv(P::ProxyConfig),
    ClipServerStatus,
    ApiServerStatus,
    ApiServerReloadConfig,
}

impl<P: Payloads> Call<P> {
    /// The command to run.
    pub open spec fn command(self) -> Command {
        match self {
            Call::ReadFile(_) => Command::ReadFile,
            Call::WriteFile(_) => Command::WriteFile,
            Call::WriteFileAtomic(_) => Command::WriteFileAtomic,
            Call::WriteFileBase64(_) => Command::WriteFileBase64,
            Call::ListDirectory(_) => Command::ListDirectory,
            Call::CopyFile(_) => Command::CopyFile,
            Call::CopyDirectory(_) => Command::CopyDirectory,
            Call::PreprocessFile(_) => Command::PreprocessFile,
            Call::DeleteFile(_) => Command::DeleteFile,
            Call::CreateDirectory(_) => Command::CreateDirectory,
            Call::FileExists(_) => Command::FileExists,
            Call::GetFileModifiedTime(_) => Command::GetFileModifiedTime,
            Call::GetFileSize(_) => Command::GetFileSize,
            Call::GetFileMd5(_) => Command::GetFileMd5,
            Call::ReadFileAsBase64(_) => Command::ReadFileAsBase64,
            Call::FindRelatedWikiPages(_) => Command::FindRelatedWikiPages,
            Call::CreateProject(_) => Command::CreateProject,
            Call::OpenProject(_) => Command::OpenProject,
            Call::SearchProject(_) => Command::SearchProject,
            Call::ListFileHistory(_) => Command::ListFileHistory,
            Call::RestoreFileHistory(_) => Command::RestoreFileHistory,
            Call::StartProjectFileWatcher(_) => Command::StartProjectFileWatcher,
            Call::StopProjectFileWatcher => Command::StopProjectFileWatcher,
            Call::RescanProjectFiles(_) => Command::RescanProjectFiles,
            Call::GetFileChangeQueue(_) => Command::GetFileChangeQueue,
            Call::RetryFileChangeTask(_) => Command::RetryFileChangeTask,
            Call::IgnoreFileChangeTask(_) => Command::IgnoreFileChangeTask,
            Call::EmbeddingFetch(_) => Command::EmbeddingFetch,
            Call::WebSearch(_) => Command::WebSearch,
            Call::AnyTxtSearch(_) => Command::AnyTxtSearch,
            Call::VectorUpsert(_) => Command::VectorUpsert,
            Call::VectorSearch(_) => Command::VectorSearch,
            Call::VectorDelete(_) => Command::VectorDelete,
            Call::VectorCount(_) => Command::VectorCount,
            Call::VectorUpsertChunks(_) => Command::VectorUpsertChunks,
            Call::VectorSearchChunks(_) => Command::VectorSearchChunks,
            Call::VectorDeletePage(_) => Command::VectorDeletePage,
            Call::VectorCountChunks(_) => Command::VectorCountChunks,
            Call::VectorClearChunks(_) => Command::VectorClearChunks,
            Call::VectorOptimizeChunks(_) => Command::VectorOptimizeChunks,
            Call::VectorLegacyRowCount(_) => Command::VectorLegacyRowCount,
            Call::VectorDropLegacy(_) => Command::VectorDropLegacy,
            Call::ExtractPdfImagesCmd(_) => Command::ExtractPdfImagesCmd,
            Call::ExtractOfficeImagesCmd(_) => Command::ExtractOfficeImagesCmd,
            Call::ExtractAndSavePdfImagesCmd(_) => Command::ExtractAndSavePdfImagesCmd,
            Call::ExtractAndSaveOfficeImagesCmd(_) => Command::ExtractAndSaveOfficeImagesCmd,
            Call::AgentStartTurn(_) => Command::AgentStartTurn,
            Call::AgentStartTurnStream(_) => Command::AgentStartTurnStream,
            Call::AgentCancelTurn(_) => Command::AgentCancelTurn,
            Call::AgentGetSession(_) => Command::AgentGetSession,
            Call::AgentListSessions(_) => Command::AgentListSessions,
            Call::AgentListSkills(_) => Command::AgentListSkills,
            Call::SetProxyEnv(_) => Command::SetProxyEnv,
            Call::ClipServerStatus => Command::ClipServerStatus,
            Call::ApiServerStatus => Command::ApiServerStatus,
            Call::ApiServerReloadConfig => Command::ApiServerReloadConfig,
        }
    }

    /// The arguments to run it with.
    pub open spec fn args(self) -> Args<P> {
        match self {
            Call::ReadFile(a) => Args::ReadFile(a),
            Call::WriteFile(a) => Args::WriteFile(a),
            Call::WriteFileAtomic(a) => Args::WriteFile(a),
            Call::WriteFileBase64(a) => Args::WriteBase64(a),
            Call::ListDirectory(a) => Args::ListDirectory(a),
            Call::CopyFile(a) => Args::SourceDest(a),
            Call::CopyDirectory(a) => Args::SourceDest(a),
            Call::PreprocessFile(a) => Args::Path(a),
            Call::DeleteFile(a) => Args::Path(a),
            Call::CreateDirectory(a) => Args::Path(a),
            Call::FileExists(a) => Args::Path(a),
            Call::GetFileModifiedTime(a) => Args::Path(a),
            Call::GetFileSize(a) => Args::Path(a),
            Call::GetFileMd5(a) => Args::Path(a),
            Call::ReadFileAsBase64(a) => Args::Path(a),
            Call::FindRelatedWikiPages(a) => Args::RelatedPages(a),
            Call::CreateProject(a) => Args::CreateProject(a),
            Call::OpenProject(a) => Args::Path(a),
            Call::SearchProject(a) => Args::SearchProject(a),
            Call::ListFileHistory(a) => Args::FileHistory(a),
            Call::RestoreFileHistory(a) => Args::RestoreHistory(a),
            Call::StartProjectFileWatcher(a) => Args::Watcher(a),
            Call::StopProjectFileWatcher => Args::Nothing,
            Call::RescanProjectFiles(a) => Args::Watcher(a),
            Call::GetFileChangeQueue(a) => Args::ProjectPath(a),
            Call::RetryFileChangeTask(a) => Args::FileTask(a),
            Call::IgnoreFileChangeTask(a) => Args::FileTask(a),
            Call::EmbeddingFetch(a) => Args::EmbeddingFetch(a),
            Call::WebSearch(a) => Args::WebSearch(a),
            Call::AnyTxtSearch(a) => Args::AnyTxtSearch(a),
            Call::VectorUpsert(a) => Args::VectorUpsert(a),
            Call::VectorSearch(a) => Args::VectorSearch(a),
            Call::VectorDelete(a) => Args::Page(a),
            Call::VectorCount(a) => Args::ProjectPath(a),
            Call::VectorUpsertChunks(a) => Args::ChunkUpsert(a),
            Call::VectorSearchChunks(a) => Args::VectorSearch(a),
            Call::VectorDeletePage(a) => Args::Page(a),
            Call::VectorCountChunks(a) => Args::ProjectPath(a),
            Call::VectorClearChunks(a) => Args::ProjectPath(a),
            Call::VectorOptimizeChunks(a) => Args::ProjectPath(a),
            Call::VectorLegacyRowCount(a) => Args::ProjectPath(a),
            Call::VectorDropLegacy(a) => Args::ProjectPath(a),
            Call::ExtractPdfImagesCmd(a) => Args::Path(a),
            Call::ExtractOfficeImagesCmd(a) => Args::Path(a),
            Call::ExtractAndSavePdfImagesCmd(a) => Args::ExtractSave(a),
            Call::ExtractAndSaveOfficeImagesCmd(a) => Args::ExtractSave(a),
            Call::AgentStartTurn(a) => Args::AgentTurn(a),
            Call::AgentStartTurnStream(a) => Args::AgentTurn(a),
            Call::AgentCancelTurn(a) => Args::AgentCancel(a),
            Call::AgentGetSession(a) => Args::AgentSession(a),
            Call::AgentListSessions(a) => Args::ProjectId(a),
            Call::AgentListSkills(a) => Args::ProjectPath(a),
            Call::SetProxyEnv(a) => Args::Proxy(a),
            Call::ClipServerStatus => Args::Nothing,
            Call::ApiServerStatus => Args::Nothing,
            Call::ApiServerReloadConfig => Args::Nothing,
        }
    }
}

/// Puts a command and its arguments together. Fails where the arguments are of a kind that the
/// command does not take.
pub fn bind<P: Payloads>(command: Command, args: Args<P>) -> (res: Option<Call<P>>)
    ensures
        res is Some <==> args.shape() == command.args_shape(),
        res matches Some(call) ==> call.command() == command && call.args() == args,
{
    match (command, args) {
        (Command::ReadFile, Args::ReadFile(a)) => Some(Call::ReadFile(a)),
        (Command::WriteFile, Args::WriteFile(a)) => Some(Call::WriteFile(a)),
        (Command::WriteFileAtomic, Args::WriteFile(a)) => Some(Call::WriteFileAtomic(a)),
        (Command::WriteFileBase64, Args::WriteBase64(a)) => Some(Call::WriteFileBase64(a)),
        (Command::ListDirectory, Args::ListDirectory(a)) => Some(Call::ListDirectory(a)),
        (Command::CopyFile, Args::SourceDest(a)) => Some(Call::CopyFile(a)),
        (Command::CopyDirectory, Args::SourceDest(a)) => Some(Call::CopyDirectory(a)),
        (Command::PreprocessFile, Args::Path(a)) => Some(Call::PreprocessFile(a)),
        (Command::DeleteFile, Args::Path(a)) => Some(Call::DeleteFile(a)),
        (Command::CreateDirectory, Args::Path(a)) => Some(Call::CreateDirectory(a)),
        (Command::FileExists, Args::Path(a)) => Some(Call::FileExists(a)),
        (Command::GetFileModifiedTime, Args::Path(a)) => Some(Call::GetFileModifiedTime(a)),
        (Command::GetFileSize, Args::Path(a)) => Some(Call::GetFileSize(a)),
        (Command::GetFileMd5, Args::Path(a)) => Some(Call::GetFileMd5(a)),
        (Command::ReadFileAsBase64, Args::Path(a)) => Some(Call::ReadFileAsBase64(a)),
        (Command::FindRelatedWikiPages, Args::RelatedPages(a)) => Some(Call::FindRelatedWikiPages(a)),
        (Command::CreateProject, Args::CreateProject(a)) => Some(Call::CreateProject(a)),
        (Command::OpenProject, Args::Path(a)) => Some(Call::OpenProject(a)),
        (Command::SearchProject, Args::SearchProject(a)) => Some(Call::SearchProject(a)),
        (Command::ListFileHistory, Args::FileHistory(a)) => Some(Call::ListFileHistory(a)),
        (Command::RestoreFileHistory, Args::RestoreHistory(a)) => Some(Call::RestoreFileHistory(a)),
        (Command::StartProjectFileWatcher, Args::Watcher(a)) => Some(Call::StartProjectFileWatcher(a)),
        (Command::StopProjectFileWatcher, Args::Nothing) => Some(Call::StopProjectFileWatcher),
        (Command::RescanProjectFiles, Args::Watcher(a)) => Some(Call::RescanProjectFiles(a)),
        (Command::GetFileChangeQueue, Args::ProjectPath(a)) => Some(Call::GetFileChangeQueue(a)),
        (Command::RetryFileChangeTask, Args::FileTask(a)) => Some(Call::RetryFileChangeTask(a)),
        (Command::IgnoreFileChangeTask, Args::FileTask(a)) => Some(Call::IgnoreFileChangeTask(a)),
        (Command::EmbeddingFetch, Args::EmbeddingFetch(a)) => Some(Call::EmbeddingFetch(a)),
        (Command::WebSearch, Args::WebSearch(a)) => Some(Call::WebSearch(a)),
        (Command::AnyTxtSearch, Args::AnyTxtSearch(a)) => Some(Call::AnyTxtSearch(a)),
        (Command::VectorUpsert, Args::VectorUpsert(a)) => Some(Call::VectorUpsert(a)),
        (Command::VectorSearch, Args::VectorSearch(a)) => Some(Call::VectorSearch(a)),
        (Command::VectorDelete, Args::Page(a)) => Some(Call::VectorDelete(a)),
        (Command::VectorCount, Args::ProjectPath(a)) => Some(Call::VectorCount(a)),
        (Command::VectorUpsertChunks, Args::ChunkUpsert(a)) => Some(Call::VectorUpsertChunks(a)),
        (Command::VectorSearchChunks, Args::VectorSearch(a)) => Some(Call::VectorSearchChunks(a)),
        (Command::VectorDeletePage, Args::Page(a)) => Some(Call::VectorDeletePage(a)),
        (Command::VectorCountChunks, Args::ProjectPath(a)) => Some(Call::VectorCountChunks(a)),
        (Command::VectorClearChunks, Args::ProjectPath(a)) => Some(Call::VectorClearChunks(a)),
        (Command::VectorOptimizeChunks, Args::ProjectPath(a)) => Some(Call::VectorOptimizeChunks(a)),
        (Command::VectorLegacyRowCount, Args::ProjectPath(a)) => Some(Call::VectorLegacyRowCount(a)),
        (Command::VectorDropLegacy, Args::ProjectPath(a)) => Some(Call::VectorDropLegacy(a)),
        (Command::ExtractPdfImagesCmd, Args::Path(a)) => Some(Call::ExtractPdfImagesCmd(a)),
        (Command::ExtractOfficeImagesCmd, Args::Path(a)) => Some(Call::ExtractOfficeImagesCmd(a)),
        (Command::ExtractAndSavePdfImagesCmd, Args::ExtractSave(a)) => Some(Call::ExtractAndSavePdfImagesCmd(a)),
        (Command::ExtractAndSaveOfficeImagesCmd, Args::ExtractSave(a)) => Some(Call::ExtractAndSaveOfficeImagesCmd(a)),
        (Command::AgentStartTurn, Args::AgentTurn(a)) => Some(Call::AgentStartTurn(a)),
        (Command::AgentStartTurnStream, Args::AgentTurn(a)) => Some(Call::AgentStartTurnStream(a)),
        (Command::AgentCancelTurn, Args::AgentCancel(a)) => Some(Call::AgentCancelTurn(a)),
        (Command::AgentGetSession, Args::AgentSession(a)) => Some(Call::AgentGetSession(a)),
        (Command::AgentListSessions, Args::ProjectId(a)) => Some(Call::AgentListSessions(a)),
        (Command::AgentListSkills, Args::ProjectPath(a)) => Some(Call::AgentListSkills(a)),
        (Command::SetProxyEnv, Args::Proxy(a)) => Some(Call::SetProxyEnv(a)),
        (Command::ClipServerStatus, Args::Nothing) => Some(Call::ClipServerStatus),
        (Command::ApiServerStatus, Args::Nothing) => Some(Call::ApiServerStatus),
        (Command::ApiServerReloadConfig, Args::Nothing) => Some(Call::ApiServerReloadConfig),
        _ => None,
    }
}

/// Each command is put together with its own kind of arguments, which it gets unchanged.
pub proof fn law_commands_get_their_arguments<P: Payloads>(
    command: Command,
    args: Args<P>,
    res: Option<Call<P>>,
)
    requires
        call_ensures(bind::<P>, (command, args), res),
    ensures
        command == Command::ReadFile ==> (args matches Args::ReadFile(a) ==> res == Some(Call::<P>::ReadFile(a))),
        command == Command::WriteFile ==> (args matches Args::WriteFile(a) ==> res == Some(Call::<P>::WriteFile(a))),
        command == Command::WriteFileAtomic ==> (args matches Args::WriteFile(a) ==> res == Some(Call::<P>::WriteFileAtomic(a))),
        command == Command::WriteFileBase64 ==> (args matches Args::WriteBase64(a) ==> res == Some(Call::<P>::WriteFileBase64(a))),
        command == Command::ListDirectory ==> (args matches Args::ListDirectory(a) ==> res == Some(Call::<P>::ListDirectory(a))),
        command == Command::CopyFile ==> (args matches Args::SourceDest(a) ==> res == Some(Call::<P>::CopyFile(a))),
        command == Command::CopyDirectory ==> (args matches Args::SourceDest(a) ==> res == Some(Call::<P>::CopyDirectory(a))),
        command == Command::PreprocessFile ==> (args matches Args::Path(a) ==> res == Some(Call::<P>::PreprocessFile(a))),
        command == Command::DeleteFile ==> (args matches Args::Path(a) ==> res == Some(Call::<P>::DeleteFile(a))),
        command == Command::CreateDirectory ==> (args matches Args::Path(a) ==> res == Some(Call::<P>::CreateDirectory(a))),
        command == Command::FileExists ==> (args matches Args::Path(a) ==> res == Some(Call::<P>::FileExists(a))),
        command == Command::GetFileModifiedTime ==> (args matches Args::Path(a) ==> res == Some(Call::<P>::GetFileModifiedTime(a))),
        command == Command::GetFileSize ==> (args matches Args::Path(a) ==> res == Some(Call::<P>::GetFileSize(a))),
        command == Command::GetFileMd5 ==> (args matches Args::Path(a) ==> res == Some(Call::<P>::GetFileMd5(a))),
        command == Command::ReadFileAsBase64 ==> (args matches Args::Path(a) ==> res == Some(Call::<P>::ReadFileAsBase64(a))),
        command == Command::FindRelatedWikiPages ==> (args matches Args::RelatedPages(a) ==> res == Some(Call::<P>::FindRelatedWikiPages(a))),
        command == Command::CreateProject ==> (args matches Args::CreateProject(a) ==> res == Some(Call::<P>::CreateProject(a))),
        command == Command::OpenProject ==> (args matches Args::Path(a) ==> res == Some(Call::<P>::OpenProject(a))),
        command == Command::SearchProject ==> (args matches Args::SearchProject(a) ==> res == Some(Call::<P>::SearchProject(a))),
        command == Command::ListFileHistory ==> (args matches Args::FileHistory(a) ==> res == Some(Call::<P>::ListFileHistory(a))),
        command == Command::RestoreFileHistory ==> (args matches Args::RestoreHistory(a) ==> res == Some(Call::<P>::RestoreFileHistory(a))),
        command == Command::StartProjectFileWatcher ==> (args matches Args::Watcher(a) ==> res == Some(Call::<P>::StartProjectFileWatcher(a))),
        command == Command::StopProjectFileWatcher && args is Nothing ==> res == Some(Call::<P>::StopProjectFileWatcher),
        command == Command::RescanProjectFiles ==> (args matches Args::Watcher(a) ==> res == Some(Call::<P>::RescanProjectFiles(a))),
        command == Command::GetFileChangeQueue ==> (args matches Args::ProjectPath(a) ==> res == Some(Call::<P>::GetFileChangeQueue(a))),
        command == Command::RetryFileChangeTask ==> (args matches Args::FileTask(a) ==> res == Some(Call::<P>::RetryFileChangeTask(a))),
        command == Command::IgnoreFileChangeTask ==> (args matches Args::FileTask(a) ==> res == Some(Call::<P>::IgnoreFileChangeTask(a))),
        command == Command::EmbeddingFetch ==> (args matches Args::EmbeddingFetch(a) ==> res == Some(Call::<P>::EmbeddingFetch(a))),
        command == Command::WebSearch ==> (args matches Args::WebSearch(a) ==> res == Some(Call::<P>::WebSearch(a))),
        command == Command::AnyTxtSearch ==> (args matches Args::AnyTxtSearch(a) ==> res == Some(Call::<P>::AnyTxtSearch(a))),
        command == Command::VectorUpsert ==> (args matches Args::VectorUpsert(a) ==> res == Some(Call::<P>::VectorUpsert(a))),
        command == Command::VectorSearch ==> (args matches Args::VectorSearch(a) ==> res == Some(Call::<P>::VectorSearch(a))),
        command == Command::VectorDelete ==> (args matches Args::Page(a) ==> res == Some(Call::<P>::VectorDelete(a))),
        command == Command::VectorCount ==> (args matches Args::ProjectPath(a) ==> res == Some(Call::<P>::VectorCount(a))),
        command == Command::VectorUpsertChunks ==> (args matches Args::ChunkUpsert(a) ==> res == Some(Call::<P>::VectorUpsertChunks(a))),
        command == Command::VectorSearchChunks ==> (args matches Args::VectorSearch(a) ==> res == Some(Call::<P>::VectorSearchChunks(a))),
        command == Command::VectorDeletePage ==> (args matches Args::Page(a) ==> res == Some(Call::<P>::VectorDeletePage(a))),
        command == Command::VectorCountChunks ==> (args matches Args::ProjectPath(a) ==> res == Some(Call::<P>::VectorCountChunks(a))),
        command == Command::VectorClearChunks ==> (args matches Args::ProjectPath(a) ==> res == Some(Call::<P>::VectorClearChunks(a))),
        command == Command::VectorOptimizeChunks ==> (args matches Args::ProjectPath(a) ==> res == Some(Call::<P>::VectorOptimizeChunks(a))),
        command == Command::VectorLegacyRowCount ==> (args matches Args::ProjectPath(a) ==> res == Some(Call::<P>::VectorLegacyRowCount(a))),
        command == Command::VectorDropLegacy ==> (args matches Args::ProjectPath(a) ==> res == Some(Call::<P>::VectorDropLegacy(a))),
        command == Command::ExtractPdfImagesCmd ==> (args matches Args::Path(a) ==> res == Some(Call::<P>::ExtractPdfImagesCmd(a))),
        command == Command::ExtractOfficeImagesCmd ==> (args matches Args::Path(a) ==> res == Some(Call::<P>::ExtractOfficeImagesCmd(a))),
        command == Command::ExtractAndSavePdfImagesCmd ==> (args matches Args::ExtractSave(a) ==> res == Some(Call::<P>::ExtractAndSavePdfImagesCmd(a))),
        command == Command::ExtractAndSaveOfficeImagesCmd ==> (args matches Args::ExtractSave(a) ==> res == Some(Call::<P>::ExtractAndSaveOfficeImagesCmd(a))),
        command == Command::AgentStartTurn ==> (args matches Args::AgentTurn(a) ==> res == Some(Call::<P>::AgentStartTurn(a))),
        command == Command::AgentStartTurnStream ==> (args matches Args::AgentTurn(a) ==> res == Some(Call::<P>::AgentStartTurnStream(a))),
        command == Command::AgentCancelTurn ==> (args matches Args::AgentCancel(a) ==> res == Some(Call::<P>::AgentCancelTurn(a))),
        command == Command::AgentGetSession ==> (args matches Args::AgentSession(a) ==> res == Some(Call::<P>::AgentGetSession(a))),
        command == Command::AgentListSessions ==> (args matches Args::ProjectId(a) ==> res == Some(Call::<P>::AgentListSessions(a))),
        command == Command::AgentListSkills ==> (args matches Args::ProjectPath(a) ==> res == Some(Call::<P>::AgentListSkills(a))),
        command == Command::SetProxyEnv ==> (args matches Args::Proxy(a) ==> res == Some(Call::<P>::SetProxyEnv(a))),
        command == Command::ClipServerStatus && args is Nothing ==> res == Some(Call::<P>::ClipServerStatus),
        command == Command::ApiServerStatus && args is Nothing ==> res == Some(Call::<P>::ApiServerStatus),
        command == Command::ApiServerReloadConfig && args is Nothing ==> res == Some(Call::<P>::ApiServerReloadConfig),
{
}

/// What is run is the command that was asked for, with the arguments that came along, and nothing is
/// run with arguments of another kind.
pub proof fn law_calls_are_what_was_asked<P: Payloads>(
    command: Command,
    args: Args<P>,
    res: Option<Call<P>>,
)
    requires
        call_ensures(bind::<P>, (command, args), res),
    ensures
        res matches Some(call) ==> match call {
            Call::ReadFile(a) => command == Command::ReadFile && args == Args::<P>::ReadFile(a),
            Call::WriteFile(a) => command == Command::WriteFile && args == Args::<P>::WriteFile(a),
            Call::WriteFileAtomic(a) => command == Command::WriteFileAtomic && args == Args::<P>::WriteFile(a),
            Call::WriteFileBase64(a) => command == Command::WriteFileBase64 && args == Args::<P>::WriteBase64(a),
            Call::ListDirectory(a) => command == Command::ListDirectory && args == Args::<P>::ListDirectory(a),
            Call::CopyFile(a) => command == Command::CopyFile && args == Args::<P>::SourceDest(a),
            Call::CopyDirectory(a) => command == Command::CopyDirectory && args == Args::<P>::SourceDest(a),
            Call::PreprocessFile(a) => command == Command::PreprocessFile && args == Args::<P>::Path(a),
            Call::DeleteFile(a) => command == Command::DeleteFile && args == Args::<P>::Path(a),
            Call::CreateDirectory(a) => command == Command::CreateDirectory && args == Args::<P>::Path(a),
            Call::FileExists(a) => command == Command::FileExists && args == Args::<P>::Path(a),
            Call::GetFileModifiedTime(a) => command == Command::GetFileModifiedTime && args == Args::<P>::Path(a),
            Call::GetFileSize(a) => command == Command::GetFileSize && args == Args::<P>::Path(a),
            Call::GetFileMd5(a) => command == Command::GetFileMd5 && args == Args::<P>::Path(a),
            Call::ReadFileAsBase64(a) => command == Command::ReadFileAsBase64 && args == Args::<P>::Path(a),
            Call::FindRelatedWikiPages(a) => command == Command::FindRelatedWikiPages && args == Args::<P>::RelatedPages(a),
            Call::CreateProject(a) => command == Command::CreateProject && args == Args::<P>::CreateProject(a),
            Call::OpenProject(a) => command == Command::OpenProject && args == Args::<P>::Path(a),
            Call::SearchProject(a) => command == Command::SearchProject && args == Args::<P>::SearchProject(a),
            Call::ListFileHistory(a) => command == Command::ListFileHistory && args == Args::<P>::FileHistory(a),
            Call::RestoreFileHistory(a) => command == Command::RestoreFileHistory && args == Args::<P>::RestoreHistory(a),
            Call::StartProjectFileWatcher(a) => command == Command::StartProjectFileWatcher && args == Args::<P>::Watcher(a),
            Call::StopProjectFileWatcher => command == Command::StopProjectFileWatcher && args == Args::<P>::Nothing,
            Call::RescanProjectFiles(a) => command == Command::RescanProjectFiles && args == Args::<P>::Watcher(a),
            Call::GetFileChangeQueue(a) => command == Command::GetFileChangeQueue && args == Args::<P>::ProjectPath(a),
            Call::RetryFileChangeTask(a) => command == Command::RetryFileChangeTask && args == Args::<P>::FileTask(a),
            Call::IgnoreFileChangeTask(a) => command == Command::IgnoreFileChangeTask && args == Args::<P>::FileTask(a),
            Call::EmbeddingFetch(a) => command == Command::EmbeddingFetch && args == Args::<P>::EmbeddingFetch(a),
            Call::WebSearch(a) => command == Command::WebSearch && args == Args::<P>::WebSearch(a),
            Call::AnyTxtSearch(a) => command == Command::AnyTxtSearch && args == Args::<P>::AnyTxtSearch(a),
            Call::VectorUpsert(a) => command == Command::VectorUpsert && args == Args::<P>::VectorUpsert(a),
            Call::VectorSearch(a) => command == Command::VectorSearch && args == Args::<P>::VectorSearch(a),
            Call::VectorDelete(a) => command == Command::VectorDelete && args == Args::<P>::Page(a),
            Call::VectorCount(a) => command == Command::VectorCount && args == Args::<P>::ProjectPath(a),
            Call::VectorUpsertChunks(a) => command == Command::VectorUpsertChunks && args == Args::<P>::ChunkUpsert(a),
            Call::VectorSearchChunks(a) => command == Command::VectorSearchChunks && args == Args::<P>::VectorSearch(a),
            Call::VectorDeletePage(a) => command == Command::VectorDeletePage && args == Args::<P>::Page(a),
            Call::VectorCountChunks(a) => command == Command::VectorCountChunks && args == Args::<P>::ProjectPath(a),
            Call::VectorClearChunks(a) => command == Command::VectorClearChunks && args == Args::<P>::ProjectPath(a),
            Call::VectorOptimizeChunks(a) => command == Command::VectorOptimizeChunks && args == Args::<P>::ProjectPath(a),
            Call::VectorLegacyRowCount(a) => command == Command::VectorLegacyRowCount && args == Args::<P>::ProjectPath(a),
            Call::VectorDropLegacy(a) => command == Command::VectorDropLegacy && args == Args::<P>::ProjectPath(a),
            Call::ExtractPdfImagesCmd(a) => command == Command::ExtractPdfImagesCmd && args == Args::<P>::Path(a),
            Call::ExtractOfficeImagesCmd(a) => command == Command::ExtractOfficeImagesCmd && args == Args::<P>::Path(a),
            Call::ExtractAndSavePdfImagesCmd(a) => command == Command::ExtractAndSavePdfImagesCmd && args == Args::<P>::ExtractSave(a),
            Call::ExtractAndSaveOfficeImagesCmd(a) => command == Command::ExtractAndSaveOfficeImagesCmd && args == Args::<P>::ExtractSave(a),
            Call::AgentStartTurn(a) => command == Command::AgentStartTurn && args == Args::<P>::AgentTurn(a),
            Call::AgentStartTurnStream(a) => command == Command::AgentStartTurnStream && args == Args::<P>::AgentTurn(a),
            Call::AgentCancelTurn(a) => command == Command::AgentCancelTurn && args == Args::<P>::AgentCancel(a),
            Call::AgentGetSession(a) => command == Command::AgentGetSession && args == Args::<P>::AgentSession(a),
            Call::AgentListSessions(a) => command == Command::AgentListSessions && args == Args::<P>::ProjectId(a),
            Call::AgentListSkills(a) => command == Command::AgentListSkills && args == Args::<P>::ProjectPath(a),
            Call::SetProxyEnv(a) => command == Command::SetProxyEnv && args == Args::<P>::Proxy(a),
            Call::ClipServerStatus => command == Command::ClipServerStatus && args == Args::<P>::Nothing,
            Call::ApiServerStatus => command == Command::ApiServerStatus && args == Args::<P>::Nothing,
            Call::ApiServerReloadConfig => command == Command::ApiServerReloadConfig && args == Args::<P>::Nothing,
        },
{
}

} // verus!
