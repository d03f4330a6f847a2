//! The commands that can be invoked over the bridge, and the arguments that each one takes.

use vstd::prelude::*;

use crate::text::text_eq;

verus! {

/// The commands of the application that the bridge exposes.
#[derive(Debug, Clone, Copy, PartialEq, Eq, Structural)]
pub enum Command {
    ReadFile,
    WriteFile,
    WriteFileAtomic,
    WriteFileBase64,
    ListDirectory,
    CopyFile,
    CopyDirectory,
    PreprocessFile,
    DeleteFile,
    CreateDirectory,
    FileExists,
    GetFileModifiedTime,
    GetFileSize,
    GetFileMd5,
    ReadFileAsBase64,
    FindRelatedWikiPages,
    CreateProject,
    OpenProject,
    SearchProject,
    ListFileHistory,
    RestoreFileHistory,
    StartProjectFileWatcher,
    StopProjectFileWatcher,
    RescanProjectFiles,
    GetFileChangeQueue,
    RetryFileChangeTask,
    IgnoreFileChangeTask,
    EmbeddingFetch,
    WebSearch,
    AnyTxtSearch,
    VectorUpsert,
    VectorSearch,
    VectorDelete,
    VectorCount,
    VectorUpsertChunks,
    VectorSearchChunks,
    VectorDeletePage,
    VectorCountChunks,
    VectorClearChunks,
    VectorOptimizeChunks,
    VectorLegacyRowCount,
    VectorDropLegacy,
    ExtractPdfImagesCmd,
    ExtractOfficeImagesCmd,
    ExtractAndSavePdfImagesCmd,
    ExtractAndSaveOfficeImagesCmd,
    AgentStartTurn,
    AgentStartTurnStream,
    AgentCancelTurn,
    AgentGetSession,
    AgentListSessions,
    AgentListSkills,
    SetProxyEnv,
    ClipServerStatus,
    ApiServerStatus,
    ApiServerReloadConfig,
}

/// The kinds of argument records.
#[derive(Debug, Clone, Copy, PartialEq, Eq, Structural)]
pub enum Shape {
    /// No arguments: whatever the request carries is ignored.
    Nothing,
    /// The proxy settings alone, in the member `config`.
    Proxy,
    Path,
    ReadFile,
    WriteFile,
    WriteBase64,
    ListDirectory,
    SourceDest,
    RelatedPages,
    CreateProject,
    Watcher,
    ProjectPath,
    FileTask,
    FileHistory,
    RestoreHistory,
    EmbeddingFetch,
    WebSearch,
    AnyTxtSearch,
    Page,
    VectorUpsert,
    VectorSearch,
    ChunkUpsert,
    ExtractSave,
    AgentTurn,
    AgentCancel,
    AgentSession,
    ProjectId,
    SearchProject,
}

impl Command {
    /// The name under which the command is invoked.
    pub open spec fn name(self) -> Seq<char> {
        match self {
            Command::ReadFile => "read_file"@,
            Command::WriteFile => "write_file"@,
            Command::WriteFileAtomic => "write_file_atomic"@,
            Command::WriteFileBase64 => "write_file_base64"@,
            Command::ListDirectory => "list_directory"@,
            Command::CopyFile => "copy_file"@,
            Command::CopyDirectory => "copy_directory"@,
            Command::PreprocessFile => "preprocess_file"@,
            Command::DeleteFile => "delete_file"@,
            Command::CreateDirectory => "create_directory"@,
            Command::FileExists => "file_exists"@,
            Command::GetFileModifiedTime => "get_file_modified_time"@,
            Command::GetFileSize => "get_file_size"@,
            Command::GetFileMd5 => "get_file_md5"@,
            Command::ReadFileAsBase64 => "read_file_as_base64"@,
            Command::FindRelatedWikiPages => "find_related_wiki_pages"@,
            Command::CreateProject => "create_project"@,
            Command::OpenProject => "open_project"@,
            Command::SearchProject => "search_project"@,
            Command::ListFileHistory => "list_file_history"@,
            Command::RestoreFileHistory => "restore_file_history"@,
            Command::StartProjectFileWatcher => "start_project_file_watcher"@,
            Command::StopProjectFileWatcher => "stop_project_file_watcher"@,
            Command::RescanProjectFiles => "rescan_project_files"@,
            Command::GetFileChangeQueue => "get_file_change_queue"@,
            Command::RetryFileChangeTask => "retry_file_change_task"@,
            Command::IgnoreFileChangeTask => "ignore_file_change_task"@,
            Command::EmbeddingFetch => "embedding_fetch"@,
            Command::WebSearch => "web_search"@,
            Command::AnyTxtSearch => "anytxt_search"@,
            Command::VectorUpsert => "vector_upsert"@,
            Command::VectorSearch => "vector_search"@,
            Command::VectorDelete => "vector_delete"@,
            Command::VectorCount => "vector_count"@,
            Command::VectorUpsertChunks => "vector_upsert_chunks"@,
            Command::VectorSearchChunks => "vector_search_chunks"@,
            Command::VectorDeletePage => "vector_delete_page"@,
            Command::VectorCountChunks => "vector_count_chunks"@,
            Command::VectorClearChunks => "vector_clear_chunks"@,
            Command::VectorOptimizeChunks => "vector_optimize_chunks"@,
            Command::VectorLegacyRowCount => "vector_legacy_row_count"@,
            Command::VectorDropLegacy => "vector_drop_legacy"@,
            Command::ExtractPdfImagesCmd => "extract_pdf_images_cmd"@,
            Command::ExtractOfficeImagesCmd => "extract_office_images_cmd"@,
            Command::ExtractAndSavePdfImagesCmd => "extract_and_save_pdf_images_cmd"@,
            Command::ExtractAndSaveOfficeImagesCmd => "extract_and_save_office_images_cmd"@,
            Command::AgentStartTurn => "agent_start_turn"@,
            Command::AgentStartTurnStream => "agent_start_turn_stream"@,
            Command::AgentCancelTurn => "agent_cancel_turn"@,
            Command::AgentGetSession => "agent_get_session"@,
            Command::AgentListSessions => "agent_list_sessions"@,
            Command::AgentListSkills => "agent_list_skills"@,
            Command::SetProxyEnv => "set_proxy_env"@,
            Command::ClipServerStatus => "clip_server_status"@,
            Command::ApiServerStatus => "api_server_status"@,
            Command::ApiServerReloadConfig => "api_server_reload_config"@,
        }
    }

    /// The kind of arguments that the command takes.
    pub open spec fn args_shape(self) -> Shape {
        match self {
            Command::ReadFile => Shape::ReadFile,
            Command::WriteFile | Command::WriteFileAtomic => Shape::WriteFile,
            Command::WriteFileBase64 => Shape::WriteBase64,
            Command::ListDirectory => Shape::ListDirectory,
            Command::CopyFile | Command::CopyDirectory => Shape::SourceDest,
            Command::PreprocessFile | Command::DeleteFile | Command::CreateDirectory | Command::FileExists | Command::GetFileModifiedTime | Command::GetFileSize | Command::GetFileMd5 | Command::ReadFileAsBase64 | Command::OpenProject | Command::ExtractPdfImagesCmd | Command::ExtractOfficeImagesCmd => Shape::Path,
            Command::FindRelatedWikiPages => Shape::RelatedPages,
            Command::CreateProject => Shape::CreateProject,
            Command::SearchProject => Shape::SearchProject,
            Command::ListFileHistory => Shape::FileHistory,
            Command::RestoreFileHistory => Shape::RestoreHistory,
            Command::StartProjectFileWatcher | Command::RescanProjectFiles => Shape::Watcher,
            Command::StopProjectFileWatcher | Command::ClipServerStatus | Command::ApiServerStatus | Command::ApiServerReloadConfig => Shape::Nothing,
            Command::GetFileChangeQueue | Command::VectorCount | Command::VectorCountChunks | Command::VectorClearChunks | Command::VectorOptimizeChunks | Command::VectorLegacyRowCount | Command::VectorDropLegacy | Command::AgentListSkills => Shape::ProjectPath,
            Command::RetryFileChangeTask | Command::IgnoreFileChangeTask => Shape::FileTask,
            Command::EmbeddingFetch => Shape::EmbeddingFetch,
            Command::WebSearch => Shape::WebSearch,
            Command::AnyTxtSearch => Shape::AnyTxtSearch,
            Command::VectorUpsert => Shape::VectorUpsert,
            Command::VectorSearch | Command::VectorSearchChunks => Shape::VectorSearch,
            Command::VectorDelete | Command::VectorDeletePage => Shape::Page,
            Command::VectorUpsertChunks => Shape::ChunkUpsert,
            Command::ExtractAndSavePdfImagesCmd | Command::ExtractAndSaveOfficeImagesCmd => Shape::ExtractSave,
            Command::AgentStartTurn | Command::AgentStartTurnStream => Shape::AgentTurn,
            Command::AgentCancelTurn => Shape::AgentCancel,
            Command::AgentGetSession => Shape::AgentSession,
            Command::AgentListSessions => Shape::ProjectId,
            Command::SetProxyEnv => Shape::Proxy,
        }
    }

    /// The kind of arguments that the command takes.
    pub fn shape(&self) -> (res: Shape)
        ensures
            res == self.args_shape(),
    {
        match self {
            Command::ReadFile => Shape::ReadFile,
            Command::WriteFile | Command::WriteFileAtomic => Shape::WriteFile,
            Command::WriteFileBase64 => Shape::WriteBase64,
            Command::ListDirectory => Shape::ListDirectory,
            Command::CopyFile | Command::CopyDirectory => Shape::SourceDest,
            Command::PreprocessFile | Command::DeleteFile | Command::CreateDirectory | Command::FileExists | Command::GetFileModifiedTime | Command::GetFileSize | Command::GetFileMd5 | Command::ReadFileAsBase64 | Command::OpenProject | Command::ExtractPdfImagesCmd | Command::ExtractOfficeImagesCmd => Shape::Path,
            Command::FindRelatedWikiPages => Shape::RelatedPages,
            Command::CreateProject => Shape::CreateProject,
            Command::SearchProject => Shape::SearchProject,
            Command::ListFileHistory => Shape::FileHistory,
            Command::RestoreFileHistory => Shape::RestoreHistory,
            Command::StartProjectFileWatcher | Command::RescanProjectFiles => Shape::Watcher,
            Command::StopProjectFileWatcher | Command::ClipServerStatus | Command::ApiServerStatus | Command::ApiServerReloadConfig => Shape::Nothing,
            Command::GetFileChangeQueue | Command::VectorCount | Command::VectorCountChunks | Command::VectorClearChunks | Command::VectorOptimizeChunks | Command::VectorLegacyRowCount | Command::VectorDropLegacy | Command::AgentListSkills => Shape::ProjectPath,
            Command::RetryFileChangeTask | Command::IgnoreFileChangeTask => Shape::FileTask,
            Command::EmbeddingFetch => Shape::EmbeddingFetch,
            Command::WebSearch => Shape::WebSearch,
            Command::AnyTxtSearch => Shape::AnyTxtSearch,
            Command::VectorUpsert => Shape::VectorUpsert,
            Command::VectorSearch | Command::VectorSearchChunks => Shape::VectorSearch,
            Command::VectorDelete | Command::VectorDeletePage => Shape::Page,
            Command::VectorUpsertChunks => Shape::ChunkUpsert,
            Command::ExtractAndSavePdfImagesCmd | Command::ExtractAndSaveOfficeImagesCmd => Shape::ExtractSave,
            Command::AgentStartTurn | Command::AgentStartTurnStream => Shape::AgentTurn,
            Command::AgentCancelTurn => Shape::AgentCancel,
            Command::AgentGetSession => Shape::AgentSession,
            Command::AgentListSessions => Shape::ProjectId,
            Command::SetProxyEnv => Shape::Proxy,
        }
    }
}

/// The command of the given name, where there is one.
pub open spec fn command_of(name: Seq<char>) -> Option<Command> {
    if name == "read_file"@ {
        Some(Command::ReadFile)
    } else if name == "write_file"@ {
        Some(Command::WriteFile)
    } else if name == "write_file_atomic"@ {
        Some(Command::WriteFileAtomic)
    } else if name == "write_file_base64"@ {
        Some(Command::WriteFileBase64)
    } else if name == "list_directory"@ {
        Some(Command::ListDirectory)
    } else if name == "copy_file"@ {
        Some(Command::CopyFile)
    } else if name == "copy_directory"@ {
        Some(Command::CopyDirectory)
    } else if name == "preprocess_file"@ {
        Some(Command::PreprocessFile)
    } else if name == "delete_file"@ {
        Some(Command::DeleteFile)
    } else if name == "create_directory"@ {
        Some(Command::CreateDirectory)
    } else if name == "file_exists"@ {
        Some(Command::FileExists)
    } else if name == "get_file_modified_time"@ {
        Some(Command::GetFileModifiedTime)
    } else if name == "get_file_size"@ {
        Some(Command::GetFileSize)
    } else if name == "get_file_md5"@ {
        Some(Command::GetFileMd5)
    } else if name == "read_file_as_base64"@ {
        Some(Command::ReadFileAsBase64)
    } else if name == "find_related_wiki_pages"@ {
        Some(Command::FindRelatedWikiPages)
    } else if name == "create_project"@ {
        Some(Command::CreateProject)
    } else if name == "open_project"@ {
        Some(Command::OpenProject)
    } else if name == "search_project"@ {
        Some(Command::SearchProject)
    } else if name == "list_file_history"@ {
        Some(Command::ListFileHistory)
    } else if name == "restore_file_history"@ {
        Some(Command::RestoreFileHistory)
    } else if name == "start_project_file_watcher"@ {
        Some(Command::StartProjectFileWatcher)
    } else if name == "stop_project_file_watcher"@ {
        Some(Command::StopProjectFileWatcher)
    } else if name == "rescan_project_files"@ {
        Some(Command::RescanProjectFiles)
    } else if name == "get_file_change_queue"@ {
        Some(Command::GetFileChangeQueue)
    } else if name == "retry_file_change_task"@ {
        Some(Command::RetryFileChangeTask)
    } else if name == "ignore_file_change_task"@ {
        Some(Command::IgnoreFileChangeTask)
    } else if name == "embedding_fetch"@ {
        Some(Command::EmbeddingFetch)
    } else if name == "web_search"@ {
        Some(Command::WebSearch)
    } else if name == "anytxt_search"@ {
        Some(Command::AnyTxtSearch)
    } else if name == "vector_upsert"@ {
        Some(Command::VectorUpsert)
    } else if name == "vector_search"@ {
        Some(Command::VectorSearch)
    } else if name == "vector_delete"@ {
        Some(Command::VectorDelete)
    } else if name == "vector_count"@ {
        Some(Command::VectorCount)
    } else if name == "vector_upsert_chunks"@ {
        Some(Command::VectorUpsertChunks)
    } else if name == "vector_search_chunks"@ {
        Some(Command::VectorSearchChunks)
    } else if name == "vector_delete_page"@ {
        Some(Command::VectorDeletePage)
    } else if name == "vector_count_chunks"@ {
        Some(Command::VectorCountChunks)
    } else if name == "vector_clear_chunks"@ {
        Some(Command::VectorClearChunks)
    } else if name == "vector_optimize_chunks"@ {
        Some(Command::VectorOptimizeChunks)
    } else if name == "vector_legacy_row_count"@ {
        Some(Command::VectorLegacyRowCount)
    } else if name == "vector_drop_legacy"@ {
        Some(Command::VectorDropLegacy)
    } else if name == "extract_pdf_images_cmd"@ {
        Some(Command::ExtractPdfImagesCmd)
    } else if name == "extract_office_images_cmd"@ {
        Some(Command::ExtractOfficeImagesCmd)
    } else if name == "extract_and_save_pdf_images_cmd"@ {
        Some(Command::ExtractAndSavePdfImagesCmd)
    } else if name == "extract_and_save_office_images_cmd"@ {
        Some(Command::ExtractAndSaveOfficeImagesCmd)
    } else if name == "agent_start_turn"@ {
        Some(Command::AgentStartTurn)
    } else if name == "agent_start_turn_stream"@ {
        Some(Command::AgentStartTurnStream)
    } else if name == "agent_cancel_turn"@ {
        Some(Command::AgentCancelTurn)
    } else if name == "agent_get_session"@ {
        Some(Command::AgentGetSession)
    } else if name == "agent_list_sessions"@ {
        Some(Command::AgentListSessions)
    } else if name == "agent_list_skills"@ {
        Some(Command::AgentListSkills)
    } else if name == "set_proxy_env"@ {
        Some(Command::SetProxyEnv)
    } else if name == "clip_server_status"@ {
        Some(Command::ClipServerStatus)
    } else if name == "api_server_status"@ {
        Some(Command::ApiServerStatus)
    } else if name == "api_server_reload_config"@ {
        Some(Command::ApiServerReloadConfig)
    } else {
        None
    }
}

/// Looks a command up by its name.
pub fn command_named(name: &str) -> (res: Option<Command>)
    ensures
        res == command_of(name@),
{
    if text_eq(name, "read_file") {
        Some(Command::ReadFile)
    } else if text_eq(name, "write_file") {
        Some(Command::WriteFile)
    } else if text_eq(name, "write_file_atomic") {
        Some(Command::WriteFileAtomic)
    } else if text_eq(name, "write_file_base64") {
        Some(Command::WriteFileBase64)
    } else if text_eq(name, "list_directory") {
        Some(Command::ListDirectory)
    } else if text_eq(name, "copy_file") {
        Some(Command::CopyFile)
    } else if text_eq(name, "copy_directory") {
        Some(Command::CopyDirectory)
    } else if text_eq(name, "preprocess_file") {
        Some(Command::PreprocessFile)
    } else if text_eq(name, "delete_file") {
        Some(Command::DeleteFile)
    } else if text_eq(name, "create_directory") {
        Some(Command::CreateDirectory)
    } else if text_eq(name, "file_exists") {
        Some(Command::FileExists)
    } else if text_eq(name, "get_file_modified_time") {
        Some(Command::GetFileModifiedTime)
    } else if text_eq(name, "get_file_size") {
        Some(Command::GetFileSize)
    } else if text_eq(name, "get_file_md5") {
        Some(Command::GetFileMd5)
    } else if text_eq(name, "read_file_as_base64") {
        Some(Command::ReadFileAsBase64)
    } else if text_eq(name, "find_related_wiki_pages") {
        Some(Command::FindRelatedWikiPages)
    } else if text_eq(name, "create_project") {
        Some(Command::CreateProject)
    } else if text_eq(name, "open_project") {
        Some(Command::OpenProject)
    } else if text_eq(name, "search_project") {
        Some(Command::SearchProject)
    } else if text_eq(name, "list_file_history") {
        Some(Command::ListFileHistory)
    } else if text_eq(name, "restore_file_history") {
        Some(Command::RestoreFileHistory)
    } else if text_eq(name, "start_project_file_watcher") {
        Some(Command::StartProjectFileWatcher)
    } else if text_eq(name, "stop_project_file_watcher") {
        Some(Command::StopProjectFileWatcher)
    } else if text_eq(name, "rescan_project_files") {
        Some(Command::RescanProjectFiles)
    } else if text_eq(name, "get_file_change_queue") {
        Some(Command::GetFileChangeQueue)
    } else if text_eq(name, "retry_file_change_task") {
        Some(Command::RetryFileChangeTask)
    } else if text_eq(name, "ignore_file_change_task") {
        Some(Command::IgnoreFileChangeTask)
    } else if text_eq(name, "embedding_fetch") {
        Some(Command::EmbeddingFetch)
    } else if text_eq(name, "web_search") {
        Some(Command::WebSearch)
    } else if text_eq(name, "anytxt_search") {
        Some(Command::AnyTxtSearch)
    } else if text_eq(name, "vector_upsert") {
        Some(Command::VectorUpsert)
    } else if text_eq(name, "vector_search") {
        Some(Command::VectorSearch)
    } else if text_eq(name, "vector_delete") {
        Some(Command::VectorDelete)
    } else if text_eq(name, "vector_count") {
        Some(Command::VectorCount)
    } else if text_eq(name, "vector_upsert_chunks") {
        Some(Command::VectorUpsertChunks)
    } else if text_eq(name, "vector_search_chunks") {
        Some(Command::VectorSearchChunks)
    } else if text_eq(name, "vector_delete_page") {
        Some(Command::VectorDeletePage)
    } else if text_eq(name, "vector_count_chunks") {
        Some(Command::VectorCountChunks)
    } else if text_eq(name, "vector_clear_chunks") {
        Some(Command::VectorClearChunks)
    } else if text_eq(name, "vector_optimize_chunks") {
        Some(Command::VectorOptimizeChunks)
    } else if text_eq(name, "vector_legacy_row_count") {
        Some(Command::VectorLegacyRowCount)
    } else if text_eq(name, "vector_drop_legacy") {
        Some(Command::VectorDropLegacy)
    } else if text_eq(name, "extract_pdf_images_cmd") {
        Some(Command::ExtractPdfImagesCmd)
    } else if text_eq(name, "extract_office_images_cmd") {
        Some(Command::ExtractOfficeImagesCmd)
    } else if text_eq(name, "extract_and_save_pdf_images_cmd") {
        Some(Command::ExtractAndSavePdfImagesCmd)
    } else if text_eq(name, "extract_and_save_office_images_cmd") {
        Some(Command::ExtractAndSaveOfficeImagesCmd)
    } else if text_eq(name, "agent_start_turn") {
        Some(Command::AgentStartTurn)
    } else if text_eq(name, "agent_start_turn_stream") {
        Some(Command::AgentStartTurnStream)
    } else if text_eq(name, "agent_cancel_turn") {
        Some(Command::AgentCancelTurn)
    } else if text_eq(name, "agent_get_session") {
        Some(Command::AgentGetSession)
    } else if text_eq(name, "agent_list_sessions") {
        Some(Command::AgentListSessions)
    } else if text_eq(name, "agent_list_skills") {
        Some(Command::AgentListSkills)
    } else if text_eq(name, "set_proxy_env") {
        Some(Command::SetProxyEnv)
    } else if text_eq(name, "clip_server_status") {
        Some(Command::ClipServerStatus)
    } else if text_eq(name, "api_server_status") {
        Some(Command::ApiServerStatus)
    } else if text_eq(name, "api_server_reload_config") {
        Some(Command::ApiServerReloadConfig)
    } else {
        None
    }
}

/// The length of a name, and three of its characters. No two commands agree in all four.
spec fn mark(name: Seq<char>) -> (nat, char, char, char) {
    (name.len(), name[0], name[8], name.last())
}

/// A command is found under its own name and under no other, so no two commands share a name.
pub proof fn law_names_identify_commands(command: Command, name: Seq<char>)
    ensures
        command_of(name) == Some(command) <==> name == command.name(),
{
    reveal_strlit("read_file");
    reveal_strlit("write_file");
    reveal_strlit("write_file_atomic");
    reveal_strlit("write_file_base64");
    reveal_strlit("list_directory");
    reveal_strlit("copy_file");
    reveal_strlit("copy_directory");
    reveal_strlit("preprocess_file");
    reveal_strlit("delete_file");
    reveal_strlit("create_directory");
    reveal_strlit("file_exists");
    reveal_strlit("get_file_modified_time");
    reveal_strlit("get_file_size");
    reveal_strlit("get_file_md5");
    reveal_strlit("read_file_as_base64");
    reveal_strlit("find_related_wiki_pages");
    reveal_strlit("create_project");
    reveal_strlit("open_project");
    reveal_strlit("search_project");
    reveal_strlit("list_file_history");
    reveal_strlit("restore_file_history");
    reveal_strlit("start_project_file_watcher");
    reveal_strlit("stop_project_file_watcher");
    reveal_strlit("rescan_project_files");
    reveal_strlit("get_file_change_queue");
    reveal_strlit("retry_file_change_task");
    reveal_strlit("ignore_file_change_task");
    reveal_strlit("embedding_fetch");
    reveal_strlit("web_search");
    reveal_strlit("anytxt_search");
    reveal_strlit("vector_upsert");
    reveal_strlit("vector_search");
    reveal_strlit("vector_delete");
    reveal_strlit("vector_count");
    reveal_strlit("vector_upsert_chunks");
    reveal_strlit("vector_search_chunks");
    reveal_strlit("vector_delete_page");
    reveal_strlit("vector_count_chunks");
    reveal_strlit("vector_clear_chunks");
    reveal_strlit("vector_optimize_chunks");
    reveal_strlit("vector_legacy_row_count");
    reveal_strlit("vector_drop_legacy");
    reveal_strlit("extract_pdf_images_cmd");
    reveal_strlit("extract_office_images_cmd");
    reveal_strlit("extract_and_save_pdf_images_cmd");
    reveal_strlit("extract_and_save_office_images_cmd");
    reveal_strlit("agent_start_turn");
    reveal_strlit("agent_start_turn_stream");
    reveal_strlit("agent_cancel_turn");
    reveal_strlit("agent_get_session");
    reveal_strlit("agent_list_sessions");
    reveal_strlit("agent_list_skills");
    reveal_strlit("set_proxy_env");
    reveal_strlit("clip_server_status");
    reveal_strlit("api_server_status");
    reveal_strlit("api_server_reload_config");
    assert(mark("read_file"@) == (9nat, 'r', 'e', 'e'));
    assert(mark("write_file"@) == (10nat, 'w', 'l', 'e'));
    assert(mark("write_file_atomic"@) == (17nat, 'w', 'l', 'c'));
    assert(mark("write_file_base64"@) == (17nat, 'w', 'l', '4'));
    assert(mark("list_directory"@) == (14nat, 'l', 'e', 'y'));
    assert(mark("copy_file"@) == (9nat, 'c', 'e', 'e'));
    assert(mark("copy_directory"@) == (14nat, 'c', 'e', 'y'));
    assert(mark("preprocess_file"@) == (15nat, 'p', 's', 'e'));
    assert(mark("delete_file"@) == (11nat, 'd', 'i', 'e'));
    assert(mark("create_directory"@) == (16nat, 'c', 'i', 'y'));
    assert(mark("file_exists"@) == (11nat, 'f', 's', 's'));
    assert(mark("get_file_modified_time"@) == (22nat, 'g', '_', 'e'));
    assert(mark("get_file_size"@) == (13nat, 'g', '_', 'e'));
    assert(mark("get_file_md5"@) == (12nat, 'g', '_', '5'));
    assert(mark("read_file_as_base64"@) == (19nat, 'r', 'e', '4'));
    assert(mark("find_related_wiki_pages"@) == (23nat, 'f', 'a', 's'));
    assert(mark("create_project"@) == (14nat, 'c', 'r', 't'));
    assert(mark("open_project"@) == (12nat, 'o', 'j', 't'));
    assert(mark("search_project"@) == (14nat, 's', 'r', 't'));
    assert(mark("list_file_history"@) == (17nat, 'l', 'e', 'y'));
    assert(mark("restore_file_history"@) == (20nat, 'r', 'f', 'y'));
    assert(mark("start_project_file_watcher"@) == (26nat, 's', 'o', 'r'));
    assert(mark("stop_project_file_watcher"@) == (25nat, 's', 'j', 'r'));
    assert(mark("rescan_project_files"@) == (20nat, 'r', 'r', 's'));
    assert(mark("get_file_change_queue"@) == (21nat, 'g', '_', 'e'));
    assert(mark("retry_file_change_task"@) == (22nat, 'r', 'l', 'k'));
    assert(mark("ignore_file_change_task"@) == (23nat, 'i', 'i', 'k'));
    assert(mark("embedding_fetch"@) == (15nat, 'e', 'g', 'h'));
    assert(mark("web_search"@) == (10nat, 'w', 'c', 'h'));
    assert(mark("anytxt_search"@) == (13nat, 'a', 'e', 'h'));
    assert(mark("vector_upsert"@) == (13nat, 'v', 'p', 't'));
    assert(mark("vector_search"@) == (13nat, 'v', 'e', 'h'));
    assert(mark("vector_delete"@) == (13nat, 'v', 'e', 'e'));
    assert(mark("vector_count"@) == (12nat, 'v', 'o', 't'));
    assert(mark("vector_upsert_chunks"@) == (20nat, 'v', 'p', 's'));
    assert(mark("vector_search_chunks"@) == (20nat, 'v', 'e', 's'));
    assert(mark("vector_delete_page"@) == (18nat, 'v', 'e', 'e'));
    assert(mark("vector_count_chunks"@) == (19nat, 'v', 'o', 's'));
    assert(mark("vector_clear_chunks"@) == (19nat, 'v', 'l', 's'));
    assert(mark("vector_optimize_chunks"@) == (22nat, 'v', 'p', 's'));
    assert(mark("vector_legacy_row_count"@) == (23nat, 'v', 'e', 't'));
    assert(mark("vector_drop_legacy"@) == (18nat, 'v', 'r', 'y'));
    assert(mark("extract_pdf_images_cmd"@) == (22nat, 'e', 'p', 'd'));
    assert(mark("extract_office_images_cmd"@) == (25nat, 'e', 'o', 'd'));
    assert(mark("extract_and_save_pdf_images_cmd"@) == (31nat, 'e', 'a', 'd'));
    assert(mark("extract_and_save_office_images_cmd"@) == (34nat, 'e', 'a', 'd'));
    assert(mark("agent_start_turn"@) == (16nat, 'a', 'a', 'n'));
    assert(mark("agent_start_turn_stream"@) == (23nat, 'a', 'a', 'm'));
    assert(mark("agent_cancel_turn"@) == (17nat, 'a', 'n', 'n'));
    assert(mark("agent_get_session"@) == (17nat, 'a', 't', 'n'));
    assert(mark("agent_list_sessions"@) == (19nat, 'a', 's', 's'));
    assert(mark("agent_list_skills"@) == (17nat, 'a', 's', 's'));
    assert(mark("set_proxy_env"@) == (13nat, 's', 'y', 'v'));
    assert(mark("clip_server_status"@) == (18nat, 'c', 'v', 's'));
    assert(mark("api_server_status"@) == (17nat, 'a', 'e', 's'));
    assert(mark("api_server_reload_config"@) == (24nat, 'a', 'e', 'g'));
}

/// Each name runs its own command, and no other name runs it.
pub proof fn law_commands_by_name(name: &str, res: Option<Command>)
    requires
        call_ensures(command_named, (name,), res),
    ensures
        res == command_of(name@),
        res == Some(Command::ReadFile) <==> name@ == "read_file"@,
        res == Some(Command::WriteFile) <==> name@ == "write_file"@,
        res == Some(Command::WriteFileAtomic) <==> name@ == "write_file_atomic"@,
        res == Some(Command::WriteFileBase64) <==> name@ == "write_file_base64"@,
        res == Some(Command::ListDirectory) <==> name@ == "list_directory"@,
        res == Some(Command::CopyFile) <==> name@ == "copy_file"@,
        res == Some(Command::CopyDirectory) <==> name@ == "copy_directory"@,
        res == Some(Command::PreprocessFile) <==> name@ == "preprocess_file"@,
        res == Some(Command::DeleteFile) <==> name@ == "delete_file"@,
        res == Some(Command::CreateDirectory) <==> name@ == "create_directory"@,
        res == Some(Command::FileExists) <==> name@ == "file_exists"@,
        res == Some(Command::GetFileModifiedTime) <==> name@ == "get_file_modified_time"@,
        res == Some(Command::GetFileSize) <==> name@ == "get_file_size"@,
        res == Some(Command::GetFileMd5) <==> name@ == "get_file_md5"@,
        res == Some(Command::ReadFileAsBase64) <==> name@ == "read_file_as_base64"@,
        res == Some(Command::FindRelatedWikiPages) <==> name@ == "find_related_wiki_pages"@,
        res == Some(Command::CreateProject) <==> name@ == "create_project"@,
        res == Some(Command::OpenProject) <==> name@ == "open_project"@,
        res == Some(Command::SearchProject) <==> name@ == "search_project"@,
        res == Some(Command::ListFileHistory) <==> name@ == "list_file_history"@,
        res == Some(Command::RestoreFileHistory) <==> name@ == "restore_file_history"@,
        res == Some(Command::StartProjectFileWatcher) <==> name@ == "start_project_file_watcher"@,
        res == Some(Command::StopProjectFileWatcher) <==> name@ == "stop_project_file_watcher"@,
        res == Some(Command::RescanProjectFiles) <==> name@ == "rescan_project_files"@,
        res == Some(Command::GetFileChangeQueue) <==> name@ == "get_file_change_queue"@,
        res == Some(Command::RetryFileChangeTask) <==> name@ == "retry_file_change_task"@,
        res == Some(Command::IgnoreFileChangeTask) <==> name@ == "ignore_file_change_task"@,
        res == Some(Command::EmbeddingFetch) <==> name@ == "embedding_fetch"@,
        res == Some(Command::WebSearch) <==> name@ == "web_search"@,
        res == Some(Command::AnyTxtSearch) <==> name@ == "anytxt_search"@,
        res == Some(Command::VectorUpsert) <==> name@ == "vector_upsert"@,
        res == Some(Command::VectorSearch) <==> name@ == "vector_search"@,
        res == Some(Command::VectorDelete) <==> name@ == "vector_delete"@,
        res == Some(Command::VectorCount) <==> name@ == "vector_count"@,
        res == Some(Command::VectorUpsertChunks) <==> name@ == "vector_upsert_chunks"@,
        res == Some(Command::VectorSearchChunks) <==> name@ == "vector_search_chunks"@,
        res == Some(Command::VectorDeletePage) <==> name@ == "vector_delete_page"@,
        res == Some(Command::VectorCountChunks) <==> name@ == "vector_count_chunks"@,
        res == Some(Command::VectorClearChunks) <==> name@ == "vector_clear_chunks"@,
        res == Some(Command::VectorOptimizeChunks) <==> name@ == "vector_optimize_chunks"@,
        res == Some(Command::VectorLegacyRowCount) <==> name@ == "vector_legacy_row_count"@,
        res == Some(Command::VectorDropLegacy) <==> name@ == "vector_drop_legacy"@,
        res == Some(Command::ExtractPdfImagesCmd) <==> name@ == "extract_pdf_images_cmd"@,
        res == Some(Command::ExtractOfficeImagesCmd) <==> name@ == "extract_office_images_cmd"@,
        res == Some(Command::ExtractAndSavePdfImagesCmd) <==> name@ == "extract_and_save_pdf_images_cmd"@,
        res == Some(Command::ExtractAndSaveOfficeImagesCmd) <==> name@ == "extract_and_save_office_images_cmd"@,
        res == Some(Command::AgentStartTurn) <==> name@ == "agent_start_turn"@,
        res == Some(Command::AgentStartTurnStream) <==> name@ == "agent_start_turn_stream"@,
        res == Some(Command::AgentCancelTurn) <==> name@ == "agent_cancel_turn"@,
        res == Some(Command::AgentGetSession) <==> name@ == "agent_get_session"@,
        res == Some(Command::AgentListSessions) <==> name@ == "agent_list_sessions"@,
        res == Some(Command::AgentListSkills) <==> name@ == "agent_list_skills"@,
        res == Some(Command::SetProxyEnv) <==> name@ == "set_proxy_env"@,
        res == Some(Command::ClipServerStatus) <==> name@ == "clip_server_status"@,
        res == Some(Command::ApiServerStatus) <==> name@ == "api_server_status"@,
        res == Some(Command::ApiServerReloadConfig) <==> name@ == "api_server_reload_config"@,
{
    law_names_identify_commands(Command::ReadFile, name@);
    law_names_identify_commands(Command::WriteFile, name@);
    law_names_identify_commands(Command::WriteFileAtomic, name@);
    law_names_identify_commands(Command::WriteFileBase64, name@);
    law_names_identify_commands(Command::ListDirectory, name@);
    law_names_identify_commands(Command::CopyFile, name@);
    law_names_identify_commands(Command::CopyDirectory, name@);
    law_names_identify_commands(Command::PreprocessFile, name@);
    law_names_identify_commands(Command::DeleteFile, name@);
    law_names_identify_commands(Command::CreateDirectory, name@);
    law_names_identify_commands(Command::FileExists, name@);
    law_names_identify_commands(Command::GetFileModifiedTime, name@);
    law_names_identify_commands(Command::GetFileSize, name@);
    law_names_identify_commands(Command::GetFileMd5, name@);
    law_names_identify_commands(Command::ReadFileAsBase64, name@);
    law_names_identify_commands(Command::FindRelatedWikiPages, name@);
    law_names_identify_commands(Command::CreateProject, name@);
    law_names_identify_commands(Command::OpenProject, name@);
    law_names_identify_commands(Command::SearchProject, name@);
    law_names_identify_commands(Command::ListFileHistory, name@);
    law_names_identify_commands(Command::RestoreFileHistory, name@);
    law_names_identify_commands(Command::StartProjectFileWatcher, name@);
    law_names_identify_commands(Command::StopProjectFileWatcher, name@);
    law_names_identify_commands(Command::RescanProjectFiles, name@);
    law_names_identify_commands(Command::GetFileChangeQueue, name@);
    law_names_identify_commands(Command::RetryFileChangeTask, name@);
    law_names_identify_commands(Command::IgnoreFileChangeTask, name@);
    law_names_identify_commands(Command::EmbeddingFetch, name@);
    law_names_identify_commands(Command::WebSearch, name@);
    law_names_identify_commands(Command::AnyTxtSearch, name@);
    law_names_identify_commands(Command::VectorUpsert, name@);
    law_names_identify_commands(Command::VectorSearch, name@);
    law_names_identify_commands(Command::VectorDelete, name@);
    law_names_identify_commands(Command::VectorCount, name@);
    law_names_identify_commands(Command::VectorUpsertChunks, name@);
    law_names_identify_commands(Command::VectorSearchChunks, name@);
    law_names_identify_commands(Command::VectorDeletePage, name@);
    law_names_identify_commands(Command::VectorCountChunks, name@);
    law_names_identify_commands(Command::VectorClearChunks, name@);
    law_names_identify_commands(Command::VectorOptimizeChunks, name@);
    law_names_identify_commands(Command::VectorLegacyRowCount, name@);
    law_names_identify_commands(Command::VectorDropLegacy, name@);
    law_names_identify_commands(Command::ExtractPdfImagesCmd, name@);
    law_names_identify_commands(Command::ExtractOfficeImagesCmd, name@);
    law_names_identify_commands(Command::ExtractAndSavePdfImagesCmd, name@);
    law_names_identify_commands(Command::ExtractAndSaveOfficeImagesCmd, name@);
    law_names_identify_commands(Command::AgentStartTurn, name@);
    law_names_identify_commands(Command::AgentStartTurnStream, name@);
    law_names_identify_commands(Command::AgentCancelTurn, name@);
    law_names_identify_commands(Command::AgentGetSession, name@);
    law_names_identify_commands(Command::AgentListSessions, name@);
    law_names_identify_commands(Command::AgentListSkills, name@);
    law_names_identify_commands(Command::SetProxyEnv, name@);
    law_names_identify_commands(Command::ClipServerStatus, name@);
    law_names_identify_commands(Command::ApiServerStatus, name@);
    law_names_identify_commands(Command::ApiServerReloadConfig, name@);
}

/// What kind of arguments a name takes: each kind belongs to the commands of the listed names, and to
/// no others.
pub proof fn law_arguments_by_name(name: &str, command: Command, res: Shape)
    requires
        call_ensures(command_named, (name,), Some(command)),
        call_ensures(Command::shape, (&command,), res),
    ensures
        res == command.args_shape(),
        res == Shape::ReadFile <==> name@ == "read_file"@,
        res == Shape::WriteFile <==> name@ == "write_file"@ || name@ == "write_file_atomic"@,
        res == Shape::WriteBase64 <==> name@ == "write_file_base64"@,
        res == Shape::ListDirectory <==> name@ == "list_directory"@,
        res == Shape::SourceDest <==> name@ == "copy_file"@ || name@ == "copy_directory"@,
        res == Shape::Path <==> name@ == "preprocess_file"@ || name@ == "delete_file"@
            || name@ == "create_directory"@ || name@ == "file_exists"@
            || name@ == "get_file_modified_time"@ || name@ == "get_file_size"@
            || name@ == "get_file_md5"@ || name@ == "read_file_as_base64"@
            || name@ == "open_project"@ || name@ == "extract_pdf_images_cmd"@
            || name@ == "extract_office_images_cmd"@,
        res == Shape::RelatedPages <==> name@ == "find_related_wiki_pages"@,
        res == Shape::CreateProject <==> name@ == "create_project"@,
        res == Shape::SearchProject <==> name@ == "search_project"@,
        res == Shape::FileHistory <==> name@ == "list_file_history"@,
        res == Shape::RestoreHistory <==> name@ == "restore_file_history"@,
        res == Shape::Watcher <==> name@ == "start_project_file_watcher"@
            || name@ == "rescan_project_files"@,
        res == Shape::Nothing <==> name@ == "stop_project_file_watcher"@
            || name@ == "clip_server_status"@ || name@ == "api_server_status"@
            || name@ == "api_server_reload_config"@,
        res == Shape::ProjectPath <==> name@ == "get_file_change_queue"@
            || name@ == "vector_count"@ || name@ == "vector_count_chunks"@
            || name@ == "vector_clear_chunks"@ || name@ == "vector_optimize_chunks"@
            || name@ == "vector_legacy_row_count"@ || name@ == "vector_drop_legacy"@
            || name@ == "agent_list_skills"@,
        res == Shape::FileTask <==> name@ == "retry_file_change_task"@
            || name@ == "ignore_file_change_task"@,
        res == Shape::EmbeddingFetch <==> name@ == "embedding_fetch"@,
        res == Shape::WebSearch <==> name@ == "web_search"@,
        res == Shape::AnyTxtSearch <==> name@ == "anytxt_search"@,
        res == Shape::VectorUpsert <==> name@ == "vector_upsert"@,
        res == Shape::VectorSearch <==> name@ == "vector_search"@
            || name@ == "vector_search_chunks"@,
        res == Shape::Page <==> name@ == "vector_delete"@ || name@ == "vector_delete_page"@,
        res == Shape::ChunkUpsert <==> name@ == "vector_upsert_chunks"@,
        res == Shape::ExtractSave <==> name@ == "extract_and_save_pdf_images_cmd"@
            || name@ == "extract_and_save_office_images_cmd"@,
        res == Shape::AgentTurn <==> name@ == "agent_start_turn"@
            || name@ == "agent_start_turn_stream"@,
        res == Shape::AgentCancel <==> name@ == "agent_cancel_turn"@,
        res == Shape::AgentSession <==> name@ == "agent_get_session"@,
        res == Shape::ProjectId <==> name@ == "agent_list_sessions"@,
        res == Shape::Proxy <==> name@ == "set_proxy_env"@,
{
    law_commands_by_name(name, Some(command));
}

} // verus!
