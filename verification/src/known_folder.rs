//! The catalog: every symbolic directory name and its platform identifier.

use vstd::prelude::*;

use crate::guid::Guid;

verus! {

/// A symbolic name for a well-known directory registered with the system.
///
/// Each variant stands for one first-party Known Folder ID. The catalog is
/// a closed set: every variant maps to exactly one [`Guid`], fixed at build
/// time, and no two variants share one, except the single directory the
/// platform keeps under both its current and its former name.
/// A computer will have only the folders appropriate to it installed, so a
/// cataloged name may still resolve to an absent directory at lookup time.
#[allow(non_camel_case_types)]
#[non_exhaustive]
#[derive(Debug, Clone, Copy, Hash, PartialEq, Eq)]
pub enum KnownFolder {
    /// The `FOLDERID_AccountPictures` known folder.
    AccountPictures,
    /// The `FOLDERID_AddNewPrograms` known folder.
    AddNewPrograms,
    /// The `FOLDERID_AdminTools` known folder.
    AdminTools,
    /// The `FOLDERID_AllAppMods` known folder.
    AllAppMods,
    /// The `FOLDERID_AppCaptures` known folder.
    AppCaptures,
    /// The `FOLDERID_AppDataDesktop` known folder.
    AppDataDesktop,
    /// The `FOLDERID_AppDataDocuments` known folder.
    AppDataDocuments,
    /// The `FOLDERID_AppDataFavorites` known folder.
    AppDataFavorites,
    /// The `FOLDERID_AppDataProgramData` known folder.
    AppDataProgramData,
    /// The `FOLDERID_AppUpdates` known folder.
    AppUpdates,
    /// The `FOLDERID_ApplicationShortcuts` known folder.
    ApplicationShortcuts,
    /// The `FOLDERID_AppsFolder` known folder.
    AppsFolder,
    /// The `FOLDERID_CDBurning` known folder.
    CDBurning,
    /// The `FOLDERID_CameraRoll` known folder.
    CameraRoll,
    /// The `FOLDERID_CameraRollLibrary` known folder.
    CameraRollLibrary,
    /// The `FOLDERID_ChangeRemovePrograms` known folder.
    ChangeRemovePrograms,
    /// The `FOLDERID_CommonAdminTools` known folder.
    CommonAdminTools,
    /// The `FOLDERID_CommonOEMLinks` known folder.
    CommonOEMLinks,
    /// The `FOLDERID_CommonPrograms` known folder.
    CommonPrograms,
    /// The `FOLDERID_CommonStartMenu` known folder.
    CommonStartMenu,
    /// The `FOLDERID_CommonStartMenuPlaces` known folder.
    CommonStartMenuPlaces,
    /// The `FOLDERID_CommonStartup` known folder.
    CommonStartup,
    /// The `FOLDERID_CommonTemplates` known folder.
    CommonTemplates,
    /// The `FOLDERID_ComputerFolder` known folder.
    ComputerFolder,
    /// The `FOLDERID_ConflictFolder` known folder.
    ConflictFolder,
    /// The `FOLDERID_ConnectionsFolder` known folder.
    ConnectionsFolder,
    /// The `FOLDERID_Contacts` known folder.
    Contacts,
    /// The `FOLDERID_ControlPanelFolder` known folder.
    ControlPanelFolder,
    /// The `FOLDERID_Cookies` known folder.
    Cookies,
    /// The `FOLDERID_CurrentAppMods` known folder.
    CurrentAppMods,
    /// The `FOLDERID_Desktop` known folder.
    Desktop,
    /// The `FOLDERID_DevelopmentFiles` known folder.
    DevelopmentFiles,
    /// The `FOLDERID_Device` known folder.
    Device,
    /// The `FOLDERID_DeviceMetadataStore` known folder.
    DeviceMetadataStore,
    /// The `FOLDERID_Documents` known folder.
    Documents,
    /// The `FOLDERID_DocumentsLibrary` known folder.
    DocumentsLibrary,
    /// The `FOLDERID_Downloads` known folder.
    Downloads,
    /// The `FOLDERID_Favorites` known folder.
    Favorites,
    /// The `FOLDERID_Fonts` known folder.
    Fonts,
    /// The `FOLDERID_GameTasks` known folder.
    GameTasks,
    /// The `FOLDERID_Games` known folder.
    Games,
    /// The `FOLDERID_History` known folder.
    History,
    /// The `FOLDERID_HomeGroup` known folder.
    HomeGroup,
    /// The `FOLDERID_HomeGroupCurrentUser` known folder.
    HomeGroupCurrentUser,
    /// The `FOLDERID_ImplicitAppShortcuts` known folder.
    ImplicitAppShortcuts,
    /// The `FOLDERID_InternetCache` known folder.
    InternetCache,
    /// The `FOLDERID_InternetFolder` known folder.
    InternetFolder,
    /// The `FOLDERID_Libraries` known folder.
    Libraries,
    /// The `FOLDERID_Links` known folder.
    Links,
    /// The `FOLDERID_LocalAppData` known folder.
    LocalAppData,
    /// The `FOLDERID_LocalAppDataLow` known folder.
    LocalAppDataLow,
    /// The `FOLDERID_LocalDocuments` known folder.
    LocalDocuments,
    /// The `FOLDERID_LocalDownloads` known folder.
    LocalDownloads,
    /// The `FOLDERID_LocalMusic` known folder.
    LocalMusic,
    /// The `FOLDERID_LocalPictures` known folder.
    LocalPictures,
    /// The `FOLDERID_LocalStorage` known folder.
    LocalStorage,
    /// The `FOLDERID_LocalVideos` known folder.
    LocalVideos,
    /// The `FOLDERID_LocalizedResourcesDir` known folder.
    LocalizedResourcesDir,
    /// The `FOLDERID_Music` known folder.
    Music,
    /// The `FOLDERID_MusicLibrary` known folder.
    MusicLibrary,
    /// The `FOLDERID_NetHood` known folder.
    NetHood,
    /// The `FOLDERID_NetworkFolder` known folder.
    NetworkFolder,
    /// The `FOLDERID_Objects3D` known folder.
    Objects3D,
    /// The `FOLDERID_OneDrive` known folder.
    OneDrive,
    /// The `FOLDERID_OriginalImages` known folder.
    OriginalImages,
    /// The `FOLDERID_PhotoAlbums` known folder.
    PhotoAlbums,
    /// The `FOLDERID_Pictures` known folder.
    Pictures,
    /// The `FOLDERID_PicturesLibrary` known folder.
    PicturesLibrary,
    /// The `FOLDERID_Playlists` known folder.
    Playlists,
    /// The `FOLDERID_PrintHood` known folder.
    PrintHood,
    /// The `FOLDERID_PrintersFolder` known folder.
    PrintersFolder,
    /// The `FOLDERID_Profile` known folder.
    Profile,
    /// The `FOLDERID_ProgramData` known folder.
    ProgramData,
    /// The `FOLDERID_ProgramFiles` known folder.
    ProgramFiles,
    /// The `FOLDERID_ProgramFilesCommon` known folder.
    ProgramFilesCommon,
    /// The `FOLDERID_ProgramFilesCommonX64` known folder.
    ProgramFilesCommonX64,
    /// The `FOLDERID_ProgramFilesCommonX86` known folder.
    ProgramFilesCommonX86,
    /// The `FOLDERID_ProgramFilesX64` known folder.
    ProgramFilesX64,
    /// The `FOLDERID_ProgramFilesX86` known folder.
    ProgramFilesX86,
    /// The `FOLDERID_Programs` known folder.
    Programs,
    /// The `FOLDERID_Public` known folder.
    Public,
    /// The `FOLDERID_PublicDesktop` known folder.
    PublicDesktop,
    /// The `FOLDERID_PublicDocuments` known folder.
    PublicDocuments,
    /// The `FOLDERID_PublicDownloads` known folder.
    PublicDownloads,
    /// The `FOLDERID_PublicGameTasks` known folder.
    PublicGameTasks,
    /// The `FOLDERID_PublicLibraries` known folder.
    PublicLibraries,
    /// The `FOLDERID_PublicMusic` known folder.
    PublicMusic,
    /// The `FOLDERID_PublicPictures` known folder.
    PublicPictures,
    /// The `FOLDERID_PublicRingtones` known folder.
    PublicRingtones,
    /// The `FOLDERID_PublicUserTiles` known folder.
    PublicUserTiles,
    /// The `FOLDERID_PublicVideos` known folder.
    PublicVideos,
    /// The `FOLDERID_QuickLaunch` known folder.
    QuickLaunch,
    /// The `FOLDERID_Recent` known folder.
    Recent,
    /// The `FOLDERID_RecordedCalls` known folder.
    RecordedCalls,
    /// The `FOLDERID_RecordedTVLibrary` known folder.
    RecordedTVLibrary,
    /// The `FOLDERID_RecycleBinFolder` known folder.
    RecycleBinFolder,
    /// The `FOLDERID_ResourceDir` known folder.
    ResourceDir,
    /// The `FOLDERID_RetailDemo` known folder.
    RetailDemo,
    /// The `FOLDERID_Ringtones` known folder.
    Ringtones,
    /// The `FOLDERID_RoamedTileImages` known folder.
    RoamedTileImages,
    /// The `FOLDERID_RoamingAppData` known folder.
    RoamingAppData,
    /// The `FOLDERID_RoamingTiles` known folder.
    RoamingTiles,
    /// The `FOLDERID_SEARCH_CSC` known folder.
    SEARCH_CSC,
    /// The `FOLDERID_SEARCH_MAPI` known folder.
    SEARCH_MAPI,
    /// The `FOLDERID_SampleMusic` known folder.
    SampleMusic,
    /// The `FOLDERID_SamplePictures` known folder.
    SamplePictures,
    /// The `FOLDERID_SamplePlaylists` known folder.
    SamplePlaylists,
    /// The `FOLDERID_SampleVideos` known folder.
    SampleVideos,
    /// The `FOLDERID_SavedGames` known folder.
    SavedGames,
    /// The `FOLDERID_SavedPictures` known folder.
    SavedPictures,
    /// The `FOLDERID_SavedPicturesLibrary` known folder.
    SavedPicturesLibrary,
    /// The `FOLDERID_SavedSearches` known folder.
    SavedSearches,
    /// The `FOLDERID_Screenshots` known folder.
    Screenshots,
    /// The `FOLDERID_SearchHistory` known folder.
    SearchHistory,
    /// The `FOLDERID_SearchHome` known folder.
    SearchHome,
    /// The `FOLDERID_SearchTemplates` known folder.
    SearchTemplates,
    /// The `FOLDERID_SendTo` known folder.
    SendTo,
    /// The `FOLDERID_SidebarDefaultParts` known folder.
    SidebarDefaultParts,
    /// The `FOLDERID_SidebarParts` known folder.
    SidebarParts,
    /// The `FOLDERID_SkyDrive` known folder.
    SkyDrive,
    /// The `FOLDERID_SkyDriveCameraRoll` known folder.
    SkyDriveCameraRoll,
    /// The `FOLDERID_SkyDriveDocuments` known folder.
    SkyDriveDocuments,
    /// The `FOLDERID_SkyDriveMusic` known folder.
    SkyDriveMusic,
    /// The `FOLDERID_SkyDrivePictures` known folder.
    SkyDrivePictures,
    /// The `FOLDERID_StartMenu` known folder.
    StartMenu,
    /// The `FOLDERID_StartMenuAllPrograms` known folder.
    StartMenuAllPrograms,
    /// The `FOLDERID_Startup` known folder.
    Startup,
    /// The `FOLDERID_SyncManagerFolder` known folder.
    SyncManagerFolder,
    /// The `FOLDERID_SyncResultsFolder` known folder.
    SyncResultsFolder,
    /// The `FOLDERID_SyncSetupFolder` known folder.
    SyncSetupFolder,
    /// The `FOLDERID_System` known folder.
    System,
    /// The `FOLDERID_SystemX86` known folder.
    SystemX86,
    /// The `FOLDERID_Templates` known folder.
    Templates,
    /// The `FOLDERID_UserPinned` known folder.
    UserPinned,
    /// The `FOLDERID_UserProfiles` known folder.
    UserProfiles,
    /// The `FOLDERID_UserProgramFiles` known folder.
    UserProgramFiles,
    /// The `FOLDERID_UserProgramFilesCommon` known folder.
    UserProgramFilesCommon,
    /// The `FOLDERID_UsersFiles` known folder.
    UsersFiles,
    /// The `FOLDERID_UsersLibraries` known folder.
    UsersLibraries,
    /// The `FOLDERID_Videos` known folder.
    Videos,
    /// The `FOLDERID_VideosLibrary` known folder.
    VideosLibrary,
    /// The `FOLDERID_Windows` known folder.
    Windows,
}

impl KnownFolder {
    /// The identifier this name maps to, as the catalog states it.
    pub open spec fn guid_spec(self) -> Guid {
        match self {
            KnownFolder::AccountPictures => (Guid { data1: 0x008ca0b1, data2: 0x55b4, data3: 0x4c56, data4: [0xb8, 0xa8, 0x4d, 0xe4, 0xb2, 0x99, 0xd3, 0xbe] }),
            KnownFolder::AddNewPrograms => (Guid { data1: 0xde61d971, data2: 0x5ebc, data3: 0x4f02, data4: [0xa3, 0xa9, 0x6c, 0x82, 0x89, 0x5e, 0x5c, 0x04] }),
            KnownFolder::AdminTools => (Guid { data1: 0x724ef170, data2: 0xa42d, data3: 0x4fef, data4: [0x9f, 0x26, 0xb6, 0x0e, 0x84, 0x6f, 0xba, 0x4f] }),
            KnownFolder::AllAppMods => (Guid { data1: 0x7ad67899, data2: 0x66af, data3: 0x43ba, data4: [0x91, 0x56, 0x6a, 0xad, 0x42, 0xe6, 0xc5, 0x96] }),
            KnownFolder::AppCaptures => (Guid { data1: 0xedc0fe71, data2: 0x98d8, data3: 0x4f4a, data4: [0xb9, 0x20, 0xc8, 0xdc, 0x13, 0x3c, 0xb1, 0x65] }),
            KnownFolder::AppDataDesktop => (Guid { data1: 0xb2c5e279, data2: 0x7add, data3: 0x439f, data4: [0xb2, 0x8c, 0xc4, 0x1f, 0xe1, 0xbb, 0xf6, 0x72] }),
            KnownFolder::AppDataDocuments => (Guid { data1: 0x7be16610, data2: 0x1f7f, data3: 0x44ac, data4: [0xbf, 0xf0, 0x83, 0xe1, 0x5f, 0x2f, 0xfc, 0xa1] }),
            KnownFolder::AppDataFavorites => (Guid { data1: 0x7cfbefbc, data2: 0xde1f, data3: 0x45aa, data4: [0xb8, 0x43, 0xa5, 0x42, 0xac, 0x53, 0x6c, 0xc9] }),
            KnownFolder::AppDataProgramData => (Guid { data1: 0x559d40a3, data2: 0xa036, data3: 0x40fa, data4: [0xaf, 0x61, 0x84, 0xcb, 0x43, 0x0a, 0x4d, 0x34] }),
            KnownFolder::AppUpdates => (Guid { data1: 0xa305ce99, data2: 0xf527, data3: 0x492b, data4: [0x8b, 0x1a, 0x7e, 0x76, 0xfa, 0x98, 0xd6, 0xe4] }),
            KnownFolder::ApplicationShortcuts => (Guid { data1: 0xa3918781, data2: 0xe5f2, data3: 0x4890, data4: [0xb3, 0xd9, 0xa7, 0xe5, 0x43, 0x32, 0x32, 0x8c] }),
            KnownFolder::AppsFolder => (Guid { data1: 0x1e87508d, data2: 0x89c2, data3: 0x42f0, data4: [0x8a, 0x7e, 0x64, 0x5a, 0x0f, 0x50, 0xca, 0x58] }),
            KnownFolder::CDBurning => (Guid { data1: 0x9e52ab10, data2: 0xf80d, data3: 0x49df, data4: [0xac, 0xb8, 0x43, 0x30, 0xf5, 0x68, 0x78, 0x55] }),
            KnownFolder::CameraRoll => (Guid { data1: 0xab5fb87b, data2: 0x7ce2, data3: 0x4f83, data4: [0x91, 0x5d, 0x55, 0x08, 0x46, 0xc9, 0x53, 0x7b] }),
            KnownFolder::CameraRollLibrary => (Guid { data1: 0x2b20df75, data2: 0x1eda, data3: 0x4039, data4: [0x80, 0x97, 0x38, 0x79, 0x82, 0x27, 0xd5, 0xb7] }),
            KnownFolder::ChangeRemovePrograms => (Guid { data1: 0xdf7266ac, data2: 0x9274, data3: 0x4867, data4: [0x8d, 0x55, 0x3b, 0xd6, 0x61, 0xde, 0x87, 0x2d] }),
            KnownFolder::CommonAdminTools => (Guid { data1: 0xd0384e7d, data2: 0xbac3, data3: 0x4797, data4: [0x8f, 0x14, 0xcb, 0xa2, 0x29, 0xb3, 0x92, 0xb5] }),
            KnownFolder::CommonOEMLinks => (Guid { data1: 0xc1bae2d0, data2: 0x10df, data3: 0x4334, data4: [0xbe, 0xdd, 0x7a, 0xa2, 0x0b, 0x22, 0x7a, 0x9d] }),
            KnownFolder::CommonPrograms => (Guid { data1: 0x0139d44e, data2: 0x6afe, data3: 0x49f2, data4: [0x86, 0x90, 0x3d, 0xaf, 0xca, 0xe6, 0xff, 0xb8] }),
            KnownFolder::CommonStartMenu => (Guid { data1: 0xa4115719, data2: 0xd62e, data3: 0x491d, data4: [0xaa, 0x7c, 0xe7, 0x4b, 0x8b, 0xe3, 0xb0, 0x67] }),
            KnownFolder::CommonStartMenuPlaces => (Guid { data1: 0xa440879f, data2: 0x87a0, data3: 0x4f7d, data4: [0xb7, 0x00, 0x02, 0x07, 0xb9, 0x66, 0x19, 0x4a] }),
            KnownFolder::CommonStartup => (Guid { data1: 0x82a5ea35, data2: 0xd9cd, data3: 0x47c5, data4: [0x96, 0x29, 0xe1, 0x5d, 0x2f, 0x71, 0x4e, 0x6e] }),
            KnownFolder::CommonTemplates => (Guid { data1: 0xb94237e7, data2: 0x57ac, data3: 0x4347, data4: [0x91, 0x51, 0xb0, 0x8c, 0x6c, 0x32, 0xd1, 0xf7] }),
            KnownFolder::ComputerFolder => (Guid { data1: 0x0ac0837c, data2: 0xbbf8, data3: 0x452a, data4: [0x85, 0x0d, 0x79, 0xd0, 0x8e, 0x66, 0x7c, 0xa7] }),
            KnownFolder::ConflictFolder => (Guid { data1: 0x4bfefb45, data2: 0x347d, data3: 0x4006, data4: [0xa5, 0xbe, 0xac, 0x0c, 0xb0, 0x56, 0x71, 0x92] }),
            KnownFolder::ConnectionsFolder => (Guid { data1: 0x6f0cd92b, data2: 0x2e97, data3: 0x45d1, data4: [0x88, 0xff, 0xb0, 0xd1, 0x86, 0xb8, 0xde, 0xdd] }),
            KnownFolder::Contacts => (Guid { data1: 0x56784854, data2: 0xc6cb, data3: 0x462b, data4: [0x81, 0x69, 0x88, 0xe3, 0x50, 0xac, 0xb8, 0x82] }),
            KnownFolder::ControlPanelFolder => (Guid { data1: 0x82a74aeb, data2: 0xaeb4, data3: 0x465c, data4: [0xa0, 0x14, 0xd0, 0x97, 0xee, 0x34, 0x6d, 0x63] }),
            KnownFolder::Cookies => (Guid { data1: 0x2b0f765d, data2: 0xc0e9, data3: 0x4171, data4: [0x90, 0x8e, 0x08, 0xa6, 0x11, 0xb8, 0x4f, 0xf6] }),
            KnownFolder::CurrentAppMods => (Guid { data1: 0x3db40b20, data2: 0x2a30, data3: 0x4dbe, data4: [0x91, 0x7e, 0x77, 0x1d, 0xd2, 0x1d, 0xd0, 0x99] }),
            KnownFolder::Desktop => (Guid { data1: 0xb4bfcc3a, data2: 0xdb2c, data3: 0x424c, data4: [0xb0, 0x29, 0x7f, 0xe9, 0x9a, 0x87, 0xc6, 0x41] }),
            KnownFolder::DevelopmentFiles => (Guid { data1: 0xdbe8e08e, data2: 0x3053, data3: 0x4bbc, data4: [0xb1, 0x83, 0x2a, 0x7b, 0x2b, 0x19, 0x1e, 0x59] }),
            KnownFolder::Device => (Guid { data1: 0x1c2ac1dc, data2: 0x4358, data3: 0x4b6c, data4: [0x97, 0x33, 0xaf, 0x21, 0x15, 0x65, 0x76, 0xf0] }),
            KnownFolder::DeviceMetadataStore => (Guid { data1: 0x5ce4a5e9, data2: 0xe4eb, data3: 0x479d, data4: [0xb8, 0x9f, 0x13, 0x0c, 0x02, 0x88, 0x61, 0x55] }),
            KnownFolder::Documents => (Guid { data1: 0xfdd39ad0, data2: 0x238f, data3: 0x46af, data4: [0xad, 0xb4, 0x6c, 0x85, 0x48, 0x03, 0x69, 0xc7] }),
            KnownFolder::DocumentsLibrary => (Guid { data1: 0x7b0db17d, data2: 0x9cd2, data3: 0x4a93, data4: [0x97, 0x33, 0x46, 0xcc, 0x89, 0x02, 0x2e, 0x7c] }),
            KnownFolder::Downloads => (Guid { data1: 0x374de290, data2: 0x123f, data3: 0x4565, data4: [0x91, 0x64, 0x39, 0xc4, 0x92, 0x5e, 0x46, 0x7b] }),
            KnownFolder::Favorites => (Guid { data1: 0x1777f761, data2: 0x68ad, data3: 0x4d8a, data4: [0x87, 0xbd, 0x30, 0xb7, 0x59, 0xfa, 0x33, 0xdd] }),
            KnownFolder::Fonts => (Guid { data1: 0xfd228cb7, data2: 0xae11, data3: 0x4ae3, data4: [0x86, 0x4c, 0x16, 0xf3, 0x91, 0x0a, 0xb8, 0xfe] }),
            KnownFolder::GameTasks => (Guid { data1: 0x054fae61, data2: 0x4dd8, data3: 0x4787, data4: [0x80, 0xb6, 0x09, 0x02, 0x20, 0xc4, 0xb7, 0x00] }),
            KnownFolder::Games => (Guid { data1: 0xcac52c1a, data2: 0xb53d, data3: 0x4edc, data4: [0x92, 0xd7, 0x6b, 0x2e, 0x8a, 0xc1, 0x94, 0x34] }),
            KnownFolder::History => (Guid { data1: 0xd9dc8a3b, data2: 0xb784, data3: 0x432e, data4: [0xa7, 0x81, 0x5a, 0x11, 0x30, 0xa7, 0x59, 0x63] }),
            KnownFolder::HomeGroup => (Guid { data1: 0x52528a6b, data2: 0xb9e3, data3: 0x4add, data4: [0xb6, 0x0d, 0x58, 0x8c, 0x2d, 0xba, 0x84, 0x2d] }),
            KnownFolder::HomeGroupCurrentUser => (Guid { data1: 0x9b74b6a3, data2: 0x0dfd, data3: 0x4f11, data4: [0x9e, 0x78, 0x5f, 0x78, 0x00, 0xf2, 0xe7, 0x72] }),
            KnownFolder::ImplicitAppShortcuts => (Guid { data1: 0xbcb5256f, data2: 0x79f6, data3: 0x4cee, data4: [0xb7, 0x25, 0xdc, 0x34, 0xe4, 0x02, 0xfd, 0x46] }),
            KnownFolder::InternetCache => (Guid { data1: 0x352481e8, data2: 0x33be, data3: 0x4251, data4: [0xba, 0x85, 0x60, 0x07, 0xca, 0xed, 0xcf, 0x9d] }),
            KnownFolder::InternetFolder => (Guid { data1: 0x4d9f7874, data2: 0x4e0c, data3: 0x4904, data4: [0x96, 0x7b, 0x40, 0xb0, 0xd2, 0x0c, 0x3e, 0x4b] }),
            KnownFolder::Libraries => (Guid { data1: 0x1b3ea5dc, data2: 0xb587, data3: 0x4786, data4: [0xb4, 0xef, 0xbd, 0x1d, 0xc3, 0x32, 0xae, 0xae] }),
            KnownFolder::Links => (Guid { data1: 0xbfb9d5e0, data2: 0xc6a9, data3: 0x404c, data4: [0xb2, 0xb2, 0xae, 0x6d, 0xb6, 0xaf, 0x49, 0x68] }),
            KnownFolder::LocalAppData => (Guid { data1: 0xf1b32785, data2: 0x6fba, data3: 0x4fcf, data4: [0x9d, 0x55, 0x7b, 0x8e, 0x7f, 0x15, 0x70, 0x91] }),
            KnownFolder::LocalAppDataLow => (Guid { data1: 0xa520a1a4, data2: 0x1780, data3: 0x4ff6, data4: [0xbd, 0x18, 0x16, 0x73, 0x43, 0xc5, 0xaf, 0x16] }),
            KnownFolder::LocalDocuments => (Guid { data1: 0xf42ee2d3, data2: 0x909f, data3: 0x4907, data4: [0x88, 0x71, 0x4c, 0x22, 0xfc, 0x0b, 0xf7, 0x56] }),
            KnownFolder::LocalDownloads => (Guid { data1: 0x7d83ee9b, data2: 0x2244, data3: 0x4e70, data4: [0xb1, 0xf5, 0x53, 0x93, 0x04, 0x2a, 0xf1, 0xe4] }),
            KnownFolder::LocalMusic => (Guid { data1: 0xa0c69a99, data2: 0x21c8, data3: 0x4671, data4: [0x87, 0x03, 0x79, 0x34, 0x16, 0x2f, 0xcf, 0x1d] }),
            KnownFolder::LocalPictures => (Guid { data1: 0x0ddd015d, data2: 0xb06c, data3: 0x45d5, data4: [0x8c, 0x4c, 0xf5, 0x97, 0x13, 0x85, 0x46, 0x39] }),
            KnownFolder::LocalStorage => (Guid { data1: 0xb3eb08d3, data2: 0xa1f3, data3: 0x496b, data4: [0x86, 0x5a, 0x42, 0xb5, 0x36, 0xcd, 0xa0, 0xec] }),
            KnownFolder::LocalVideos => (Guid { data1: 0x35286a68, data2: 0x3c57, data3: 0x41a1, data4: [0xbb, 0xb1, 0x0e, 0xae, 0x73, 0xd7, 0x6c, 0x95] }),
            KnownFolder::LocalizedResourcesDir => (Guid { data1: 0x2a00375e, data2: 0x224c, data3: 0x49de, data4: [0xb8, 0xd1, 0x44, 0x0d, 0xf7, 0xef, 0x3d, 0xdc] }),
            KnownFolder::Music => (Guid { data1: 0x4bd8d571, data2: 0x6d19, data3: 0x48d3, data4: [0xbe, 0x97, 0x42, 0x22, 0x20, 0x08, 0x0e, 0x43] }),
            KnownFolder::MusicLibrary => (Guid { data1: 0x2112ab0a, data2: 0xc86a, data3: 0x4ffe, data4: [0xa3, 0x68, 0x0d, 0xe9, 0x6e, 0x47, 0x01, 0x2e] }),
            KnownFolder::NetHood => (Guid { data1: 0xc5abbf53, data2: 0xe17f, data3: 0x4121, data4: [0x89, 0x00, 0x86, 0x62, 0x6f, 0xc2, 0xc9, 0x73] }),
            KnownFolder::NetworkFolder => (Guid { data1: 0xd20beec4, data2: 0x5ca8, data3: 0x4905, data4: [0xae, 0x3b, 0xbf, 0x25, 0x1e, 0xa0, 0x9b, 0x53] }),
            KnownFolder::Objects3D => (Guid { data1: 0x31c0dd25, data2: 0x9439, data3: 0x4f12, data4: [0xbf, 0x41, 0x7f, 0xf4, 0xed, 0xa3, 0x87, 0x22] }),
            KnownFolder::OneDrive => (Guid { data1: 0xa52bba46, data2: 0xe9e1, data3: 0x435f, data4: [0xb3, 0xd9, 0x28, 0xda, 0xa6, 0x48, 0xc0, 0xf6] }),
            KnownFolder::OriginalImages => (Guid { data1: 0x2c36c0aa, data2: 0x5812, data3: 0x4b87, data4: [0xbf, 0xd0, 0x4c, 0xd0, 0xdf, 0xb1, 0x9b, 0x39] }),
            KnownFolder::PhotoAlbums => (Guid { data1: 0x69d2cf90, data2: 0xfc33, data3: 0x4fb7, data4: [0x9a, 0x0c, 0xeb, 0xb0, 0xf0, 0xfc, 0xb4, 0x3c] }),
            KnownFolder::Pictures => (Guid { data1: 0x33e28130, data2: 0x4e1e, data3: 0x4676, data4: [0x83, 0x5a, 0x98, 0x39, 0x5c, 0x3b, 0xc3, 0xbb] }),
            KnownFolder::PicturesLibrary => (Guid { data1: 0xa990ae9f, data2: 0xa03b, data3: 0x4e80, data4: [0x94, 0xbc, 0x99, 0x12, 0xd7, 0x50, 0x41, 0x04] }),
            KnownFolder::Playlists => (Guid { data1: 0xde92c1c7, data2: 0x837f, data3: 0x4f69, data4: [0xa3, 0xbb, 0x86, 0xe6, 0x31, 0x20, 0x4a, 0x23] }),
            KnownFolder::PrintHood => (Guid { data1: 0x9274bd8d, data2: 0xcfd1, data3: 0x41c3, data4: [0xb3, 0x5e, 0xb1, 0x3f, 0x55, 0xa7, 0x58, 0xf4] }),
            KnownFolder::PrintersFolder => (Guid { data1: 0x76fc4e2d, data2: 0xd6ad, data3: 0x4519, data4: [0xa6, 0x63, 0x37, 0xbd, 0x56, 0x06, 0x81, 0x85] }),
            KnownFolder::Profile => (Guid { data1: 0x5e6c858f, data2: 0x0e22, data3: 0x4760, data4: [0x9a, 0xfe, 0xea, 0x33, 0x17, 0xb6, 0x71, 0x73] }),
            KnownFolder::ProgramData => (Guid { data1: 0x62ab5d82, data2: 0xfdc1, data3: 0x4dc3, data4: [0xa9, 0xdd, 0x07, 0x0d, 0x1d, 0x49, 0x5d, 0x97] }),
            KnownFolder::ProgramFiles => (Guid { data1: 0x905e63b6, data2: 0xc1bf, data3: 0x494e, data4: [0xb2, 0x9c, 0x65, 0xb7, 0x32, 0xd3, 0xd2, 0x1a] }),
            KnownFolder::ProgramFilesCommon => (Guid { data1: 0xf7f1ed05, data2: 0x9f6d, data3: 0x47a2, data4: [0xaa, 0xae, 0x29, 0xd3, 0x17, 0xc6, 0xf0, 0x66] }),
            KnownFolder::ProgramFilesCommonX64 => (Guid { data1: 0x6365d5a7, data2: 0x0f0d, data3: 0x45e5, data4: [0x87, 0xf6, 0x0d, 0xa5, 0x6b, 0x6a, 0x4f, 0x7d] }),
            KnownFolder::ProgramFilesCommonX86 => (Guid { data1: 0xde974d24, data2: 0xd9c6, data3: 0x4d3e, data4: [0xbf, 0x91, 0xf4, 0x45, 0x51, 0x20, 0xb9, 0x17] }),
            KnownFolder::ProgramFilesX64 => (Guid { data1: 0x6d809377, data2: 0x6af0, data3: 0x444b, data4: [0x89, 0x57, 0xa3, 0x77, 0x3f, 0x02, 0x20, 0x0e] }),
            KnownFolder::ProgramFilesX86 => (Guid { data1: 0x7c5a40ef, data2: 0xa0fb, data3: 0x4bfc, data4: [0x87, 0x4a, 0xc0, 0xf2, 0xe0, 0xb9, 0xfa, 0x8e] }),
            KnownFolder::Programs => (Guid { data1: 0xa77f5d77, data2: 0x2e2b, data3: 0x44c3, data4: [0xa6, 0xa2, 0xab, 0xa6, 0x01, 0x05, 0x4a, 0x51] }),
            KnownFolder::Public => (Guid { data1: 0xdfdf76a2, data2: 0xc82a, data3: 0x4d63, data4: [0x90, 0x6a, 0x56, 0x44, 0xac, 0x45, 0x73, 0x85] }),
            KnownFolder::PublicDesktop => (Guid { data1: 0xc4aa340d, data2: 0xf20f, data3: 0x4863, data4: [0xaf, 0xef, 0xf8, 0x7e, 0xf2, 0xe6, 0xba, 0x25] }),
            KnownFolder::PublicDocuments => (Guid { data1: 0xed4824af, data2: 0xdce4, data3: 0x45a8, data4: [0x81, 0xe2, 0xfc, 0x79, 0x65, 0x08, 0x36, 0x34] }),
            KnownFolder::PublicDownloads => (Guid { data1: 0x3d644c9b, data2: 0x1fb8, data3: 0x4f30, data4: [0x9b, 0x45, 0xf6, 0x70, 0x23, 0x5f, 0x79, 0xc0] }),
            KnownFolder::PublicGameTasks => (Guid { data1: 0xdebf2536, data2: 0xe1a8, data3: 0x4c59, data4: [0xb6, 0xa2, 0x41, 0x45, 0x86, 0x47, 0x6a, 0xea] }),
            KnownFolder::PublicLibraries => (Guid { data1: 0x48daf80b, data2: 0xe6cf, data3: 0x4f4e, data4: [0xb8, 0x00, 0x0e, 0x69, 0xd8, 0x4e, 0xe3, 0x84] }),
            KnownFolder::PublicMusic => (Guid { data1: 0x3214fab5, data2: 0x9757, data3: 0x4298, data4: [0xbb, 0x61, 0x92, 0xa9, 0xde, 0xaa, 0x44, 0xff] }),
            KnownFolder::PublicPictures => (Guid { data1: 0xb6ebfb86, data2: 0x6907, data3: 0x413c, data4: [0x9a, 0xf7, 0x4f, 0xc2, 0xab, 0xf0, 0x7c, 0xc5] }),
            KnownFolder::PublicRingtones => (Guid { data1: 0xe555ab60, data2: 0x153b, data3: 0x4d17, data4: [0x9f, 0x04, 0xa5, 0xfe, 0x99, 0xfc, 0x15, 0xec] }),
            KnownFolder::PublicUserTiles => (Guid { data1: 0x0482af6c, data2: 0x08f1, data3: 0x4c34, data4: [0x8c, 0x90, 0xe1, 0x7e, 0xc9, 0x8b, 0x1e, 0x17] }),
            KnownFolder::PublicVideos => (Guid { data1: 0x2400183a, data2: 0x6185, data3: 0x49fb, data4: [0xa2, 0xd8, 0x4a, 0x39, 0x2a, 0x60, 0x2b, 0xa3] }),
            KnownFolder::QuickLaunch => (Guid { data1: 0x52a4f021, data2: 0x7b75, data3: 0x48a9, data4: [0x9f, 0x6b, 0x4b, 0x87, 0xa2, 0x10, 0xbc, 0x8f] }),
            KnownFolder::Recent => (Guid { data1: 0xae50c081, data2: 0xebd2, data3: 0x438a, data4: [0x86, 0x55, 0x8a, 0x09, 0x2e, 0x34, 0x98, 0x7a] }),
            KnownFolder::RecordedCalls => (Guid { data1: 0x2f8b40c2, data2: 0x83ed, data3: 0x48ee, data4: [0xb3, 0x83, 0xa1, 0xf1, 0x57, 0xec, 0x6f, 0x9a] }),
            KnownFolder::RecordedTVLibrary => (Guid { data1: 0x1a6fdba2, data2: 0xf42d, data3: 0x4358, data4: [0xa7, 0x98, 0xb7, 0x4d, 0x74, 0x59, 0x26, 0xc5] }),
            KnownFolder::RecycleBinFolder => (Guid { data1: 0xb7534046, data2: 0x3ecb, data3: 0x4c18, data4: [0xbe, 0x4e, 0x64, 0xcd, 0x4c, 0xb7, 0xd6, 0xac] }),
            KnownFolder::ResourceDir => (Guid { data1: 0x8ad10c31, data2: 0x2adb, data3: 0x4296, data4: [0xa8, 0xf7, 0xe4, 0x70, 0x12, 0x32, 0xc9, 0x72] }),
            KnownFolder::RetailDemo => (Guid { data1: 0x12d4c69e, data2: 0x24ad, data3: 0x4923, data4: [0xbe, 0x19, 0x31, 0x32, 0x1c, 0x43, 0xa7, 0x67] }),
            KnownFolder::Ringtones => (Guid { data1: 0xc870044b, data2: 0xf49e, data3: 0x4126, data4: [0xa9, 0xc3, 0xb5, 0x2a, 0x1f, 0xf4, 0x11, 0xe8] }),
            KnownFolder::RoamedTileImages => (Guid { data1: 0xaaa8d5a5, data2: 0xf1d6, data3: 0x4259, data4: [0xba, 0xa8, 0x78, 0xe7, 0xef, 0x60, 0x83, 0x5e] }),
            KnownFolder::RoamingAppData => (Guid { data1: 0x3eb685db, data2: 0x65f9, data3: 0x4cf6, data4: [0xa0, 0x3a, 0xe3, 0xef, 0x65, 0x72, 0x9f, 0x3d] }),
            KnownFolder::RoamingTiles => (Guid { data1: 0x00bcfc5a, data2: 0xed94, data3: 0x4e48, data4: [0x96, 0xa1, 0x3f, 0x62, 0x17, 0xf2, 0x19, 0x90] }),
            KnownFolder::SEARCH_CSC => (Guid { data1: 0xee32e446, data2: 0x31ca, data3: 0x4aba, data4: [0x81, 0x4f, 0xa5, 0xeb, 0xd2, 0xfd, 0x6d, 0x5e] }),
            KnownFolder::SEARCH_MAPI => (Guid { data1: 0x98ec0e18, data2: 0x2098, data3: 0x4d44, data4: [0x86, 0x44, 0x66, 0x97, 0x93, 0x15, 0xa2, 0x81] }),
            KnownFolder::SampleMusic => (Guid { data1: 0xb250c668, data2: 0xf57d, data3: 0x4ee1, data4: [0xa6, 0x3c, 0x29, 0x0e, 0xe7, 0xd1, 0xaa, 0x1f] }),
            KnownFolder::SamplePictures => (Guid { data1: 0xc4900540, data2: 0x2379, data3: 0x4c75, data4: [0x84, 0x4b, 0x64, 0xe6, 0xfa, 0xf8, 0x71, 0x6b] }),
            KnownFolder::SamplePlaylists => (Guid { data1: 0x15ca69b3, data2: 0x30ee, data3: 0x49c1, data4: [0xac, 0xe1, 0x6b, 0x5e, 0xc3, 0x72, 0xaf, 0xb5] }),
            KnownFolder::SampleVideos => (Guid { data1: 0x859ead94, data2: 0x2e85, data3: 0x48ad, data4: [0xa7, 0x1a, 0x09, 0x69, 0xcb, 0x56, 0xa6, 0xcd] }),
            KnownFolder::SavedGames => (Guid { data1: 0x4c5c32ff, data2: 0xbb9d, data3: 0x43b0, data4: [0xb5, 0xb4, 0x2d, 0x72, 0xe5, 0x4e, 0xaa, 0xa4] }),
            KnownFolder::SavedPictures => (Guid { data1: 0x3b193882, data2: 0xd3ad, data3: 0x4eab, data4: [0x96, 0x5a, 0x69, 0x82, 0x9d, 0x1f, 0xb5, 0x9f] }),
            KnownFolder::SavedPicturesLibrary => (Guid { data1: 0xe25b5812, data2: 0xbe88, data3: 0x4bd9, data4: [0x94, 0xb0, 0x29, 0x23, 0x34, 0x77, 0xb6, 0xc3] }),
            KnownFolder::SavedSearches => (Guid { data1: 0x7d1d3a04, data2: 0xdebb, data3: 0x4115, data4: [0x95, 0xcf, 0x2f, 0x29, 0xda, 0x29, 0x20, 0xda] }),
            KnownFolder::Screenshots => (Guid { data1: 0xb7bede81, data2: 0xdf94, data3: 0x4682, data4: [0xa7, 0xd8, 0x57, 0xa5, 0x26, 0x20, 0xb8, 0x6f] }),
            KnownFolder::SearchHistory => (Guid { data1: 0x0d4c3db6, data2: 0x03a3, data3: 0x462f, data4: [0xa0, 0xe6, 0x08, 0x92, 0x4c, 0x41, 0xb5, 0xd4] }),
            KnownFolder::SearchHome => (Guid { data1: 0x190337d1, data2: 0xb8ca, data3: 0x4121, data4: [0xa6, 0x39, 0x6d, 0x47, 0x2d, 0x16, 0x97, 0x2a] }),
            KnownFolder::SearchTemplates => (Guid { data1: 0x7e636bfe, data2: 0xdfa9, data3: 0x4d5e, data4: [0xb4, 0x56, 0xd7, 0xb3, 0x98, 0x51, 0xd8, 0xa9] }),
            KnownFolder::SendTo => (Guid { data1: 0x8983036c, data2: 0x27c0, data3: 0x404b, data4: [0x8f, 0x08, 0x10, 0x2d, 0x10, 0xdc, 0xfd, 0x74] }),
            KnownFolder::SidebarDefaultParts => (Guid { data1: 0x7b396e54, data2: 0x9ec5, data3: 0x4300, data4: [0xbe, 0x0a, 0x24, 0x82, 0xeb, 0xae, 0x1a, 0x26] }),
            KnownFolder::SidebarParts => (Guid { data1: 0xa75d362e, data2: 0x50fc, data3: 0x4fb7, data4: [0xac, 0x2c, 0xa8, 0xbe, 0xaa, 0x31, 0x44, 0x93] }),
            KnownFolder::SkyDrive => (Guid { data1: 0xa52bba46, data2: 0xe9e1, data3: 0x435f, data4: [0xb3, 0xd9, 0x28, 0xda, 0xa6, 0x48, 0xc0, 0xf6] }),
            KnownFolder::SkyDriveCameraRoll => (Guid { data1: 0x767e6811, data2: 0x49cb, data3: 0x4273, data4: [0x87, 0xc2, 0x20, 0xf3, 0x55, 0xe1, 0x08, 0x5b] }),
            KnownFolder::SkyDriveDocuments => (Guid { data1: 0x24d89e24, data2: 0x2f19, data3: 0x4534, data4: [0x9d, 0xde, 0x6a, 0x66, 0x71, 0xfb, 0xb8, 0xfe] }),
            KnownFolder::SkyDriveMusic => (Guid { data1: 0xc3f2459e, data2: 0x80d6, data3: 0x45dc, data4: [0xbf, 0xef, 0x1f, 0x76, 0x9f, 0x2b, 0xe7, 0x30] }),
            KnownFolder::SkyDrivePictures => (Guid { data1: 0x339719b5, data2: 0x8c47, data3: 0x4894, data4: [0x94, 0xc2, 0xd8, 0xf7, 0x7a, 0xdd, 0x44, 0xa6] }),
            KnownFolder::StartMenu => (Guid { data1: 0x625b53c3, data2: 0xab48, data3: 0x4ec1, data4: [0xba, 0x1f, 0xa1, 0xef, 0x41, 0x46, 0xfc, 0x19] }),
            KnownFolder::StartMenuAllPrograms => (Guid { data1: 0xf26305ef, data2: 0x6948, data3: 0x40b9, data4: [0xb2, 0x55, 0x81, 0x45, 0x3d, 0x09, 0xc7, 0x85] }),
            KnownFolder::Startup => (Guid { data1: 0xb97d20bb, data2: 0xf46a, data3: 0x4c97, data4: [0xba, 0x10, 0x5e, 0x36, 0x08, 0x43, 0x08, 0x54] }),
            KnownFolder::SyncManagerFolder => (Guid { data1: 0x43668bf8, data2: 0xc14e, data3: 0x49b2, data4: [0x97, 0xc9, 0x74, 0x77, 0x84, 0xd7, 0x84, 0xb7] }),
            KnownFolder::SyncResultsFolder => (Guid { data1: 0x289a9a43, data2: 0xbe44, data3: 0x4057, data4: [0xa4, 0x1b, 0x58, 0x7a, 0x76, 0xd7, 0xe7, 0xf9] }),
            KnownFolder::SyncSetupFolder => (Guid { data1: 0x0f214138, data2: 0xb1d3, data3: 0x4a90, data4: [0xbb, 0xa9, 0x27, 0xcb, 0xc0, 0xc5, 0x38, 0x9a] }),
            KnownFolder::System => (Guid { data1: 0x1ac14e77, data2: 0x02e7, data3: 0x4e5d, data4: [0xb7, 0x44, 0x2e, 0xb1, 0xae, 0x51, 0x98, 0xb7] }),
            KnownFolder::SystemX86 => (Guid { data1: 0xd65231b0, data2: 0xb2f1, data3: 0x4857, data4: [0xa4, 0xce, 0xa8, 0xe7, 0xc6, 0xea, 0x7d, 0x27] }),
            KnownFolder::Templates => (Guid { data1: 0xa63293e8, data2: 0x664e, data3: 0x48db, data4: [0xa0, 0x79, 0xdf, 0x75, 0x9e, 0x05, 0x09, 0xf7] }),
            KnownFolder::UserPinned => (Guid { data1: 0x9e3995ab, data2: 0x1f9c, data3: 0x4f13, data4: [0xb8, 0x27, 0x48, 0xb2, 0x4b, 0x6c, 0x71, 0x74] }),
            KnownFolder::UserProfiles => (Guid { data1: 0x0762d272, data2: 0xc50a, data3: 0x4bb0, data4: [0xa3, 0x82, 0x69, 0x7d, 0xcd, 0x72, 0x9b, 0x80] }),
            KnownFolder::UserProgramFiles => (Guid { data1: 0x5cd7aee2, data2: 0x2219, data3: 0x4a67, data4: [0xb8, 0x5d, 0x6c, 0x9c, 0xe1, 0x56, 0x60, 0xcb] }),
            KnownFolder::UserProgramFilesCommon => (Guid { data1: 0xbcbd3057, data2: 0xca5c, data3: 0x4622, data4: [0xb4, 0x2d, 0xbc, 0x56, 0xdb, 0x0a, 0xe5, 0x16] }),
            KnownFolder::UsersFiles => (Guid { data1: 0xf3ce0f7c, data2: 0x4901, data3: 0x4acc, data4: [0x86, 0x48, 0xd5, 0xd4, 0x4b, 0x04, 0xef, 0x8f] }),
            KnownFolder::UsersLibraries => (Guid { data1: 0xa302545d, data2: 0xdeff, data3: 0x464b, data4: [0xab, 0xe8, 0x61, 0xc8, 0x64, 0x8d, 0x93, 0x9b] }),
            KnownFolder::Videos => (Guid { data1: 0x18989b1d, data2: 0x99b5, data3: 0x455b, data4: [0x84, 0x1c, 0xab, 0x7c, 0x74, 0xe4, 0xdd, 0xfc] }),
            KnownFolder::VideosLibrary => (Guid { data1: 0x491e922f, data2: 0x5643, data3: 0x4af4, data4: [0xa7, 0xeb, 0x4e, 0x7a, 0x13, 0x8d, 0x81, 0x74] }),
            KnownFolder::Windows => (Guid { data1: 0xf38bf404, data2: 0x1d43, data3: 0x42f2, data4: [0x93, 0x05, 0x67, 0xde, 0x0b, 0x28, 0xfc, 0x23] }),
        }
    }

    /// Map this symbolic name to its fixed 128-bit platform identifier.
    ///
    /// The mapping is pure, total and constant: every variant has an
    /// identifier known at build time, and repeated calls return equal
    /// values.
    pub fn to_guid(self) -> (g: Guid)
        ensures
            g == self.guid_spec(),
    {
        match self {
            KnownFolder::AccountPictures => (Guid { data1: 0x008ca0b1, data2: 0x55b4, data3: 0x4c56, data4: [0xb8, 0xa8, 0x4d, 0xe4, 0xb2, 0x99, 0xd3, 0xbe] }),
            KnownFolder::AddNewPrograms => (Guid { data1: 0xde61d971, data2: 0x5ebc, data3: 0x4f02, data4: [0xa3, 0xa9, 0x6c, 0x82, 0x89, 0x5e, 0x5c, 0x04] }),
            KnownFolder::AdminTools => (Guid { data1: 0x724ef170, data2: 0xa42d, data3: 0x4fef, data4: [0x9f, 0x26, 0xb6, 0x0e, 0x84, 0x6f, 0xba, 0x4f] }),
            KnownFolder::AllAppMods => (Guid { data1: 0x7ad67899, data2: 0x66af, data3: 0x43ba, data4: [0x91, 0x56, 0x6a, 0xad, 0x42, 0xe6, 0xc5, 0x96] }),
            KnownFolder::AppCaptures => (Guid { data1: 0xedc0fe71, data2: 0x98d8, data3: 0x4f4a, data4: [0xb9, 0x20, 0xc8, 0xdc, 0x13, 0x3c, 0xb1, 0x65] }),
            KnownFolder::AppDataDesktop => (Guid { data1: 0xb2c5e279, data2: 0x7add, data3: 0x439f, data4: [0xb2, 0x8c, 0xc4, 0x1f, 0xe1, 0xbb, 0xf6, 0x72] }),
            KnownFolder::AppDataDocuments => (Guid { data1: 0x7be16610, data2: 0x1f7f, data3: 0x44ac, data4: [0xbf, 0xf0, 0x83, 0xe1, 0x5f, 0x2f, 0xfc, 0xa1] }),
            KnownFolder::AppDataFavorites => (Guid { data1: 0x7cfbefbc, data2: 0xde1f, data3: 0x45aa, data4: [0xb8, 0x43, 0xa5, 0x42, 0xac, 0x53, 0x6c, 0xc9] }),
            KnownFolder::AppDataProgramData => (Guid { data1: 0x559d40a3, data2: 0xa036, data3: 0x40fa, data4: [0xaf, 0x61, 0x84, 0xcb, 0x43, 0x0a, 0x4d, 0x34] }),
            KnownFolder::AppUpdates => (Guid { data1: 0xa305ce99, data2: 0xf527, data3: 0x492b, data4: [0x8b, 0x1a, 0x7e, 0x76, 0xfa, 0x98, 0xd6, 0xe4] }),
            KnownFolder::ApplicationShortcuts => (Guid { data1: 0xa3918781, data2: 0xe5f2, data3: 0x4890, data4: [0xb3, 0xd9, 0xa7, 0xe5, 0x43, 0x32, 0x32, 0x8c] }),
            KnownFolder::AppsFolder => (Guid { data1: 0x1e87508d, data2: 0x89c2, data3: 0x42f0, data4: [0x8a, 0x7e, 0x64, 0x5a, 0x0f, 0x50, 0xca, 0x58] }),
            KnownFolder::CDBurning => (Guid { data1: 0x9e52ab10, data2: 0xf80d, data3: 0x49df, data4: [0xac, 0xb8, 0x43, 0x30, 0xf5, 0x68, 0x78, 0x55] }),
            KnownFolder::CameraRoll => (Guid { data1: 0xab5fb87b, data2: 0x7ce2, data3: 0x4f83, data4: [0x91, 0x5d, 0x55, 0x08, 0x46, 0xc9, 0x53, 0x7b] }),
            KnownFolder::CameraRollLibrary => (Guid { data1: 0x2b20df75, data2: 0x1eda, data3: 0x4039, data4: [0x80, 0x97, 0x38, 0x79, 0x82, 0x27, 0xd5, 0xb7] }),
            KnownFolder::ChangeRemovePrograms => (Guid { data1: 0xdf7266ac, data2: 0x9274, data3: 0x4867, data4: [0x8d, 0x55, 0x3b, 0xd6, 0x61, 0xde, 0x87, 0x2d] }),
            KnownFolder::CommonAdminTools => (Guid { data1: 0xd0384e7d, data2: 0xbac3, data3: 0x4797, data4: [0x8f, 0x14, 0xcb, 0xa2, 0x29, 0xb3, 0x92, 0xb5] }),
            KnownFolder::CommonOEMLinks => (Guid { data1: 0xc1bae2d0, data2: 0x10df, data3: 0x4334, data4: [0xbe, 0xdd, 0x7a, 0xa2, 0x0b, 0x22, 0x7a, 0x9d] }),
            KnownFolder::CommonPrograms => (Guid { data1: 0x0139d44e, data2: 0x6afe, data3: 0x49f2, data4: [0x86, 0x90, 0x3d, 0xaf, 0xca, 0xe6, 0xff, 0xb8] }),
            KnownFolder::CommonStartMenu => (Guid { data1: 0xa4115719, data2: 0xd62e, data3: 0x491d, data4: [0xaa, 0x7c, 0xe7, 0x4b, 0x8b, 0xe3, 0xb0, 0x67] }),
            KnownFolder::CommonStartMenuPlaces => (Guid { data1: 0xa440879f, data2: 0x87a0, data3: 0x4f7d, data4: [0xb7, 0x00, 0x02, 0x07, 0xb9, 0x66, 0x19, 0x4a] }),
            KnownFolder::CommonStartup => (Guid { data1: 0x82a5ea35, data2: 0xd9cd, data3: 0x47c5, data4: [0x96, 0x29, 0xe1, 0x5d, 0x2f, 0x71, 0x4e, 0x6e] }),
            KnownFolder::CommonTemplates => (Guid { data1: 0xb94237e7, data2: 0x57ac, data3: 0x4347, data4: [0x91, 0x51, 0xb0, 0x8c, 0x6c, 0x32, 0xd1, 0xf7] }),
            KnownFolder::ComputerFolder => (Guid { data1: 0x0ac0837c, data2: 0xbbf8, data3: 0x452a, data4: [0x85, 0x0d, 0x79, 0xd0, 0x8e, 0x66, 0x7c, 0xa7] }),
            KnownFolder::ConflictFolder => (Guid { data1: 0x4bfefb45, data2: 0x347d, data3: 0x4006, data4: [0xa5, 0xbe, 0xac, 0x0c, 0xb0, 0x56, 0x71, 0x92] }),
            KnownFolder::ConnectionsFolder => (Guid { data1: 0x6f0cd92b, data2: 0x2e97, data3: 0x45d1, data4: [0x88, 0xff, 0xb0, 0xd1, 0x86, 0xb8, 0xde, 0xdd] }),
            KnownFolder::Contacts => (Guid { data1: 0x56784854, data2: 0xc6cb, data3: 0x462b, data4: [0x81, 0x69, 0x88, 0xe3, 0x50, 0xac, 0xb8, 0x82] }),
            KnownFolder::ControlPanelFolder => (Guid { data1: 0x82a74aeb, data2: 0xaeb4, data3: 0x465c, data4: [0xa0, 0x14, 0xd0, 0x97, 0xee, 0x34, 0x6d, 0x63] }),
            KnownFolder::Cookies => (Guid { data1: 0x2b0f765d, data2: 0xc0e9, data3: 0x4171, data4: [0x90, 0x8e, 0x08, 0xa6, 0x11, 0xb8, 0x4f, 0xf6] }),
            KnownFolder::CurrentAppMods => (Guid { data1: 0x3db40b20, data2: 0x2a30, data3: 0x4dbe, data4: [0x91, 0x7e, 0x77, 0x1d, 0xd2, 0x1d, 0xd0, 0x99] }),
            KnownFolder::Desktop => (Guid { data1: 0xb4bfcc3a, data2: 0xdb2c, data3: 0x424c, data4: [0xb0, 0x29, 0x7f, 0xe9, 0x9a, 0x87, 0xc6, 0x41] }),
            KnownFolder::DevelopmentFiles => (Guid { data1: 0xdbe8e08e, data2: 0x3053, data3: 0x4bbc, data4: [0xb1, 0x83, 0x2a, 0x7b, 0x2b, 0x19, 0x1e, 0x59] }),
            KnownFolder::Device => (Guid { data1: 0x1c2ac1dc, data2: 0x4358, data3: 0x4b6c, data4: [0x97, 0x33, 0xaf, 0x21, 0x15, 0x65, 0x76, 0xf0] }),
            KnownFolder::DeviceMetadataStore => (Guid { data1: 0x5ce4a5e9, data2: 0xe4eb, data3: 0x479d, data4: [0xb8, 0x9f, 0x13, 0x0c, 0x02, 0x88, 0x61, 0x55] }),
            KnownFolder::Documents => (Guid { data1: 0xfdd39ad0, data2: 0x238f, data3: 0x46af, data4: [0xad, 0xb4, 0x6c, 0x85, 0x48, 0x03, 0x69, 0xc7] }),
            KnownFolder::DocumentsLibrary => (Guid { data1: 0x7b0db17d, data2: 0x9cd2, data3: 0x4a93, data4: [0x97, 0x33, 0x46, 0xcc, 0x89, 0x02, 0x2e, 0x7c] }),
            KnownFolder::Downloads => (Guid { data1: 0x374de290, data2: 0x123f, data3: 0x4565, data4: [0x91, 0x64, 0x39, 0xc4, 0x92, 0x5e, 0x46, 0x7b] }),
            KnownFolder::Favorites => (Guid { data1: 0x1777f761, data2: 0x68ad, data3: 0x4d8a, data4: [0x87, 0xbd, 0x30, 0xb7, 0x59, 0xfa, 0x33, 0xdd] }),
            KnownFolder::Fonts => (Guid { data1: 0xfd228cb7, data2: 0xae11, data3: 0x4ae3, data4: [0x86, 0x4c, 0x16, 0xf3, 0x91, 0x0a, 0xb8, 0xfe] }),
            KnownFolder::GameTasks => (Guid { data1: 0x054fae61, data2: 0x4dd8, data3: 0x4787, data4: [0x80, 0xb6, 0x09, 0x02, 0x20, 0xc4, 0xb7, 0x00] }),
            KnownFolder::Games => (Guid { data1: 0xcac52c1a, data2: 0xb53d, data3: 0x4edc, data4: [0x92, 0xd7, 0x6b, 0x2e, 0x8a, 0xc1, 0x94, 0x34] }),
            KnownFolder::History => (Guid { data1: 0xd9dc8a3b, data2: 0xb784, data3: 0x432e, data4: [0xa7, 0x81, 0x5a, 0x11, 0x30, 0xa7, 0x59, 0x63] }),
            KnownFolder::HomeGroup => (Guid { data1: 0x52528a6b, data2: 0xb9e3, data3: 0x4add, data4: [0xb6, 0x0d, 0x58, 0x8c, 0x2d, 0xba, 0x84, 0x2d] }),
            KnownFolder::HomeGroupCurrentUser => (Guid { data1: 0x9b74b6a3, data2: 0x0dfd, data3: 0x4f11, data4: [0x9e, 0x78, 0x5f, 0x78, 0x00, 0xf2, 0xe7, 0x72] }),
            KnownFolder::ImplicitAppShortcuts => (Guid { data1: 0xbcb5256f, data2: 0x79f6, data3: 0x4cee, data4: [0xb7, 0x25, 0xdc, 0x34, 0xe4, 0x02, 0xfd, 0x46] }),
            KnownFolder::InternetCache => (Guid { data1: 0x352481e8, data2: 0x33be, data3: 0x4251, data4: [0xba, 0x85, 0x60, 0x07, 0xca, 0xed, 0xcf, 0x9d] }),
            KnownFolder::InternetFolder => (Guid { data1: 0x4d9f7874, data2: 0x4e0c, data3: 0x4904, data4: [0x96, 0x7b, 0x40, 0xb0, 0xd2, 0x0c, 0x3e, 0x4b] }),
            KnownFolder::Libraries => (Guid { data1: 0x1b3ea5dc, data2: 0xb587, data3: 0x4786, data4: [0xb4, 0xef, 0xbd, 0x1d, 0xc3, 0x32, 0xae, 0xae] }),
            KnownFolder::Links => (Guid { data1: 0xbfb9d5e0, data2: 0xc6a9, data3: 0x404c, data4: [0xb2, 0xb2, 0xae, 0x6d, 0xb6, 0xaf, 0x49, 0x68] }),
            KnownFolder::LocalAppData => (Guid { data1: 0xf1b32785, data2: 0x6fba, data3: 0x4fcf, data4: [0x9d, 0x55, 0x7b, 0x8e, 0x7f, 0x15, 0x70, 0x91] }),
            KnownFolder::LocalAppDataLow => (Guid { data1: 0xa520a1a4, data2: 0x1780, data3: 0x4ff6, data4: [0xbd, 0x18, 0x16, 0x73, 0x43, 0xc5, 0xaf, 0x16] }),
            KnownFolder::LocalDocuments => (Guid { data1: 0xf42ee2d3, data2: 0x909f, data3: 0x4907, data4: [0x88, 0x71, 0x4c, 0x22, 0xfc, 0x0b, 0xf7, 0x56] }),
            KnownFolder::LocalDownloads => (Guid { data1: 0x7d83ee9b, data2: 0x2244, data3: 0x4e70, data4: [0xb1, 0xf5, 0x53, 0x93, 0x04, 0x2a, 0xf1, 0xe4] }),
            KnownFolder::LocalMusic => (Guid { data1: 0xa0c69a99, data2: 0x21c8, data3: 0x4671, data4: [0x87, 0x03, 0x79, 0x34, 0x16, 0x2f, 0xcf, 0x1d] }),
            KnownFolder::LocalPictures => (Guid { data1: 0x0ddd015d, data2: 0xb06c, data3: 0x45d5, data4: [0x8c, 0x4c, 0xf5, 0x97, 0x13, 0x85, 0x46, 0x39] }),
            KnownFolder::LocalStorage => (Guid { data1: 0xb3eb08d3, data2: 0xa1f3, data3: 0x496b, data4: [0x86, 0x5a, 0x42, 0xb5, 0x36, 0xcd, 0xa0, 0xec] }),
            KnownFolder::LocalVideos => (Guid { data1: 0x35286a68, data2: 0x3c57, data3: 0x41a1, data4: [0xbb, 0xb1, 0x0e, 0xae, 0x73, 0xd7, 0x6c, 0x95] }),
            KnownFolder::LocalizedResourcesDir => (Guid { data1: 0x2a00375e, data2: 0x224c, data3: 0x49de, data4: [0xb8, 0xd1, 0x44, 0x0d, 0xf7, 0xef, 0x3d, 0xdc] }),
            KnownFolder::Music => (Guid { data1: 0x4bd8d571, data2: 0x6d19, data3: 0x48d3, data4: [0xbe, 0x97, 0x42, 0x22, 0x20, 0x08, 0x0e, 0x43] }),
            KnownFolder::MusicLibrary => (Guid { data1: 0x2112ab0a, data2: 0xc86a, data3: 0x4ffe, data4: [0xa3, 0x68, 0x0d, 0xe9, 0x6e, 0x47, 0x01, 0x2e] }),
            KnownFolder::NetHood => (Guid { data1: 0xc5abbf53, data2: 0xe17f, data3: 0x4121, data4: [0x89, 0x00, 0x86, 0x62, 0x6f, 0xc2, 0xc9, 0x73] }),
            KnownFolder::NetworkFolder => (Guid { data1: 0xd20beec4, data2: 0x5ca8, data3: 0x4905, data4: [0xae, 0x3b, 0xbf, 0x25, 0x1e, 0xa0, 0x9b, 0x53] }),
            KnownFolder::Objects3D => (Guid { data1: 0x31c0dd25, data2: 0x9439, data3: 0x4f12, data4: [0xbf, 0x41, 0x7f, 0xf4, 0xed, 0xa3, 0x87, 0x22] }),
            KnownFolder::OneDrive => (Guid { data1: 0xa52bba46, data2: 0xe9e1, data3: 0x435f, data4: [0xb3, 0xd9, 0x28, 0xda, 0xa6, 0x48, 0xc0, 0xf6] }),
            KnownFolder::OriginalImages => (Guid { data1: 0x2c36c0aa, data2: 0x5812, data3: 0x4b87, data4: [0xbf, 0xd0, 0x4c, 0xd0, 0xdf, 0xb1, 0x9b, 0x39] }),
            KnownFolder::PhotoAlbums => (Guid { data1: 0x69d2cf90, data2: 0xfc33, data3: 0x4fb7, data4: [0x9a, 0x0c, 0xeb, 0xb0, 0xf0, 0xfc, 0xb4, 0x3c] }),
            KnownFolder::Pictures => (Guid { data1: 0x33e28130, data2: 0x4e1e, data3: 0x4676, data4: [0x83, 0x5a, 0x98, 0x39, 0x5c, 0x3b, 0xc3, 0xbb] }),
            KnownFolder::PicturesLibrary => (Guid { data1: 0xa990ae9f, data2: 0xa03b, data3: 0x4e80, data4: [0x94, 0xbc, 0x99, 0x12, 0xd7, 0x50, 0x41, 0x04] }),
            KnownFolder::Playlists => (Guid { data1: 0xde92c1c7, data2: 0x837f, data3: 0x4f69, data4: [0xa3, 0xbb, 0x86, 0xe6, 0x31, 0x20, 0x4a, 0x23] }),
            KnownFolder::PrintHood => (Guid { data1: 0x9274bd8d, data2: 0xcfd1, data3: 0x41c3, data4: [0xb3, 0x5e, 0xb1, 0x3f, 0x55, 0xa7, 0x58, 0xf4] }),
            KnownFolder::PrintersFolder => (Guid { data1: 0x76fc4e2d, data2: 0xd6ad, data3: 0x4519, data4: [0xa6, 0x63, 0x37, 0xbd, 0x56, 0x06, 0x81, 0x85] }),
            KnownFolder::Profile => (Guid { data1: 0x5e6c858f, data2: 0x0e22, data3: 0x4760, data4: [0x9a, 0xfe, 0xea, 0x33, 0x17, 0xb6, 0x71, 0x73] }),
            KnownFolder::ProgramData => (Guid { data1: 0x62ab5d82, data2: 0xfdc1, data3: 0x4dc3, data4: [0xa9, 0xdd, 0x07, 0x0d, 0x1d, 0x49, 0x5d, 0x97] }),
            KnownFolder::ProgramFiles => (Guid { data1: 0x905e63b6, data2: 0xc1bf, data3: 0x494e, data4: [0xb2, 0x9c, 0x65, 0xb7, 0x32, 0xd3, 0xd2, 0x1a] }),
            KnownFolder::ProgramFilesCommon => (Guid { data1: 0xf7f1ed05, data2: 0x9f6d, data3: 0x47a2, data4: [0xaa, 0xae, 0x29, 0xd3, 0x17, 0xc6, 0xf0, 0x66] }),
            KnownFolder::ProgramFilesCommonX64 => (Guid { data1: 0x6365d5a7, data2: 0x0f0d, data3: 0x45e5, data4: [0x87, 0xf6, 0x0d, 0xa5, 0x6b, 0x6a, 0x4f, 0x7d] }),
            KnownFolder::ProgramFilesCommonX86 => (Guid { data1: 0xde974d24, data2: 0xd9c6, data3: 0x4d3e, data4: [0xbf, 0x91, 0xf4, 0x45, 0x51, 0x20, 0xb9, 0x17] }),
            KnownFolder::ProgramFilesX64 => (Guid { data1: 0x6d809377, data2: 0x6af0, data3: 0x444b, data4: [0x89, 0x57, 0xa3, 0x77, 0x3f, 0x02, 0x20, 0x0e] }),
            KnownFolder::ProgramFilesX86 => (Guid { data1: 0x7c5a40ef, data2: 0xa0fb, data3: 0x4bfc, data4: [0x87, 0x4a, 0xc0, 0xf2, 0xe0, 0xb9, 0xfa, 0x8e] }),
            KnownFolder::Programs => (Guid { data1: 0xa77f5d77, data2: 0x2e2b, data3: 0x44c3, data4: [0xa6, 0xa2, 0xab, 0xa6, 0x01, 0x05, 0x4a, 0x51] }),
            KnownFolder::Public => (Guid { data1: 0xdfdf76a2, data2: 0xc82a, data3: 0x4d63, data4: [0x90, 0x6a, 0x56, 0x44, 0xac, 0x45, 0x73, 0x85] }),
            KnownFolder::PublicDesktop => (Guid { data1: 0xc4aa340d, data2: 0xf20f, data3: 0x4863, data4: [0xaf, 0xef, 0xf8, 0x7e, 0xf2, 0xe6, 0xba, 0x25] }),
            KnownFolder::PublicDocuments => (Guid { data1: 0xed4824af, data2: 0xdce4, data3: 0x45a8, data4: [0x81, 0xe2, 0xfc, 0x79, 0x65, 0x08, 0x36, 0x34] }),
            KnownFolder::PublicDownloads => (Guid { data1: 0x3d644c9b, data2: 0x1fb8, data3: 0x4f30, data4: [0x9b, 0x45, 0xf6, 0x70, 0x23, 0x5f, 0x79, 0xc0] }),
            KnownFolder::PublicGameTasks => (Guid { data1: 0xdebf2536, data2: 0xe1a8, data3: 0x4c59, data4: [0xb6, 0xa2, 0x41, 0x45, 0x86, 0x47, 0x6a, 0xea] }),
            KnownFolder::PublicLibraries => (Guid { data1: 0x48daf80b, data2: 0xe6cf, data3: 0x4f4e, data4: [0xb8, 0x00, 0x0e, 0x69, 0xd8, 0x4e, 0xe3, 0x84] }),
            KnownFolder::PublicMusic => (Guid { data1: 0x3214fab5, data2: 0x9757, data3: 0x4298, data4: [0xbb, 0x61, 0x92, 0xa9, 0xde, 0xaa, 0x44, 0xff] }),
            KnownFolder::PublicPictures => (Guid { data1: 0xb6ebfb86, data2: 0x6907, data3: 0x413c, data4: [0x9a, 0xf7, 0x4f, 0xc2, 0xab, 0xf0, 0x7c, 0xc5] }),
            KnownFolder::PublicRingtones => (Guid { data1: 0xe555ab60, data2: 0x153b, data3: 0x4d17, data4: [0x9f, 0x04, 0xa5, 0xfe, 0x99, 0xfc, 0x15, 0xec] }),
            KnownFolder::PublicUserTiles => (Guid { data1: 0x0482af6c, data2: 0x08f1, data3: 0x4c34, data4: [0x8c, 0x90, 0xe1, 0x7e, 0xc9, 0x8b, 0x1e, 0x17] }),
            KnownFolder::PublicVideos => (Guid { data1: 0x2400183a, data2: 0x6185, data3: 0x49fb, data4: [0xa2, 0xd8, 0x4a, 0x39, 0x2a, 0x60, 0x2b, 0xa3] }),
            KnownFolder::QuickLaunch => (Guid { data1: 0x52a4f021, data2: 0x7b75, data3: 0x48a9, data4: [0x9f, 0x6b, 0x4b, 0x87, 0xa2, 0x10, 0xbc, 0x8f] }),
            KnownFolder::Recent => (Guid { data1: 0xae50c081, data2: 0xebd2, data3: 0x438a, data4: [0x86, 0x55, 0x8a, 0x09, 0x2e, 0x34, 0x98, 0x7a] }),
            KnownFolder::RecordedCalls => (Guid { data1: 0x2f8b40c2, data2: 0x83ed, data3: 0x48ee, data4: [0xb3, 0x83, 0xa1, 0xf1, 0x57, 0xec, 0x6f, 0x9a] }),
            KnownFolder::RecordedTVLibrary => (Guid { data1: 0x1a6fdba2, data2: 0xf42d, data3: 0x4358, data4: [0xa7, 0x98, 0xb7, 0x4d, 0x74, 0x59, 0x26, 0xc5] }),
            KnownFolder::RecycleBinFolder => (Guid { data1: 0xb7534046, data2: 0x3ecb, data3: 0x4c18, data4: [0xbe, 0x4e, 0x64, 0xcd, 0x4c, 0xb7, 0xd6, 0xac] }),
            KnownFolder::ResourceDir => (Guid { data1: 0x8ad10c31, data2: 0x2adb, data3: 0x4296, data4: [0xa8, 0xf7, 0xe4, 0x70, 0x12, 0x32, 0xc9, 0x72] }),
            KnownFolder::RetailDemo => (Guid { data1: 0x12d4c69e, data2: 0x24ad, data3: 0x4923, data4: [0xbe, 0x19, 0x31, 0x32, 0x1c, 0x43, 0xa7, 0x67] }),
            KnownFolder::Ringtones => (Guid { data1: 0xc870044b, data2: 0xf49e, data3: 0x4126, data4: [0xa9, 0xc3, 0xb5, 0x2a, 0x1f, 0xf4, 0x11, 0xe8] }),
            KnownFolder::RoamedTileImages => (Guid { data1: 0xaaa8d5a5, data2: 0xf1d6, data3: 0x4259, data4: [0xba, 0xa8, 0x78, 0xe7, 0xef, 0x60, 0x83, 0x5e] }),
            KnownFolder::RoamingAppData => (Guid { data1: 0x3eb685db, data2: 0x65f9, data3: 0x4cf6, data4: [0xa0, 0x3a, 0xe3, 0xef, 0x65, 0x72, 0x9f, 0x3d] }),
            KnownFolder::RoamingTiles => (Guid { data1: 0x00bcfc5a, data2: 0xed94, data3: 0x4e48, data4: [0x96, 0xa1, 0x3f, 0x62, 0x17, 0xf2, 0x19, 0x90] }),
            KnownFolder::SEARCH_CSC => (Guid { data1: 0xee32e446, data2: 0x31ca, data3: 0x4aba, data4: [0x81, 0x4f, 0xa5, 0xeb, 0xd2, 0xfd, 0x6d, 0x5e] }),
            KnownFolder::SEARCH_MAPI => (Guid { data1: 0x98ec0e18, data2: 0x2098, data3: 0x4d44, data4: [0x86, 0x44, 0x66, 0x97, 0x93, 0x15, 0xa2, 0x81] }),
            KnownFolder::SampleMusic => (Guid { data1: 0xb250c668, data2: 0xf57d, data3: 0x4ee1, data4: [0xa6, 0x3c, 0x29, 0x0e, 0xe7, 0xd1, 0xaa, 0x1f] }),
            KnownFolder::SamplePictures => (Guid { data1: 0xc4900540, data2: 0x2379, data3: 0x4c75, data4: [0x84, 0x4b, 0x64, 0xe6, 0xfa, 0xf8, 0x71, 0x6b] }),
            KnownFolder::SamplePlaylists => (Guid { data1: 0x15ca69b3, data2: 0x30ee, data3: 0x49c1, data4: [0xac, 0xe1, 0x6b, 0x5e, 0xc3, 0x72, 0xaf, 0xb5] }),
            KnownFolder::SampleVideos => (Guid { data1: 0x859ead94, data2: 0x2e85, data3: 0x48ad, data4: [0xa7, 0x1a, 0x09, 0x69, 0xcb, 0x56, 0xa6, 0xcd] }),
            KnownFolder::SavedGames => (Guid { data1: 0x4c5c32ff, data2: 0xbb9d, data3: 0x43b0, data4: [0xb5, 0xb4, 0x2d, 0x72, 0xe5, 0x4e, 0xaa, 0xa4] }),
            KnownFolder::SavedPictures => (Guid { data1: 0x3b193882, data2: 0xd3ad, data3: 0x4eab, data4: [0x96, 0x5a, 0x69, 0x82, 0x9d, 0x1f, 0xb5, 0x9f] }),
            KnownFolder::SavedPicturesLibrary => (Guid { data1: 0xe25b5812, data2: 0xbe88, data3: 0x4bd9, data4: [0x94, 0xb0, 0x29, 0x23, 0x34, 0x77, 0xb6, 0xc3] }),
            KnownFolder::SavedSearches => (Guid { data1: 0x7d1d3a04, data2: 0xdebb, data3: 0x4115, data4: [0x95, 0xcf, 0x2f, 0x29, 0xda, 0x29, 0x20, 0xda] }),
            KnownFolder::Screenshots => (Guid { data1: 0xb7bede81, data2: 0xdf94, data3: 0x4682, data4: [0xa7, 0xd8, 0x57, 0xa5, 0x26, 0x20, 0xb8, 0x6f] }),
            KnownFolder::SearchHistory => (Guid { data1: 0x0d4c3db6, data2: 0x03a3, data3: 0x462f, data4: [0xa0, 0xe6, 0x08, 0x92, 0x4c, 0x41, 0xb5, 0xd4] }),
            KnownFolder::SearchHome => (Guid { data1: 0x190337d1, data2: 0xb8ca, data3: 0x4121, data4: [0xa6, 0x39, 0x6d, 0x47, 0x2d, 0x16, 0x97, 0x2a] }),
            KnownFolder::SearchTemplates => (Guid { data1: 0x7e636bfe, data2: 0xdfa9, data3: 0x4d5e, data4: [0xb4, 0x56, 0xd7, 0xb3, 0x98, 0x51, 0xd8, 0xa9] }),
            KnownFolder::SendTo => (Guid { data1: 0x8983036c, data2: 0x27c0, data3: 0x404b, data4: [0x8f, 0x08, 0x10, 0x2d, 0x10, 0xdc, 0xfd, 0x74] }),
            KnownFolder::SidebarDefaultParts => (Guid { data1: 0x7b396e54, data2: 0x9ec5, data3: 0x4300, data4: [0xbe, 0x0a, 0x24, 0x82, 0xeb, 0xae, 0x1a, 0x26] }),
            KnownFolder::SidebarParts => (Guid { data1: 0xa75d362e, data2: 0x50fc, data3: 0x4fb7, data4: [0xac, 0x2c, 0xa8, 0xbe, 0xaa, 0x31, 0x44, 0x93] }),
            KnownFolder::SkyDrive => (Guid { data1: 0xa52bba46, data2: 0xe9e1, data3: 0x435f, data4: [0xb3, 0xd9, 0x28, 0xda, 0xa6, 0x48, 0xc0, 0xf6] }),
            KnownFolder::SkyDriveCameraRoll => (Guid { data1: 0x767e6811, data2: 0x49cb, data3: 0x4273, data4: [0x87, 0xc2, 0x20, 0xf3, 0x55, 0xe1, 0x08, 0x5b] }),
            KnownFolder::SkyDriveDocuments => (Guid { data1: 0x24d89e24, data2: 0x2f19, data3: 0x4534, data4: [0x9d, 0xde, 0x6a, 0x66, 0x71, 0xfb, 0xb8, 0xfe] }),
            KnownFolder::SkyDriveMusic => (Guid { data1: 0xc3f2459e, data2: 0x80d6, data3: 0x45dc, data4: [0xbf, 0xef, 0x1f, 0x76, 0x9f, 0x2b, 0xe7, 0x30] }),
            KnownFolder::SkyDrivePictures => (Guid { data1: 0x339719b5, data2: 0x8c47, data3: 0x4894, data4: [0x94, 0xc2, 0xd8, 0xf7, 0x7a, 0xdd, 0x44, 0xa6] }),
            KnownFolder::StartMenu => (Guid { data1: 0x625b53c3, data2: 0xab48, data3: 0x4ec1, data4: [0xba, 0x1f, 0xa1, 0xef, 0x41, 0x46, 0xfc, 0x19] }),
            KnownFolder::StartMenuAllPrograms => (Guid { data1: 0xf26305ef, data2: 0x6948, data3: 0x40b9, data4: [0xb2, 0x55, 0x81, 0x45, 0x3d, 0x09, 0xc7, 0x85] }),
            KnownFolder::Startup => (Guid { data1: 0xb97d20bb, data2: 0xf46a, data3: 0x4c97, data4: [0xba, 0x10, 0x5e, 0x36, 0x08, 0x43, 0x08, 0x54] }),
            KnownFolder::SyncManagerFolder => (Guid { data1: 0x43668bf8, data2: 0xc14e, data3: 0x49b2, data4: [0x97, 0xc9, 0x74, 0x77, 0x84, 0xd7, 0x84, 0xb7] }),
            KnownFolder::SyncResultsFolder => (Guid { data1: 0x289a9a43, data2: 0xbe44, data3: 0x4057, data4: [0xa4, 0x1b, 0x58, 0x7a, 0x76, 0xd7, 0xe7, 0xf9] }),
            KnownFolder::SyncSetupFolder => (Guid { data1: 0x0f214138, data2: 0xb1d3, data3: 0x4a90, data4: [0xbb, 0xa9, 0x27, 0xcb, 0xc0, 0xc5, 0x38, 0x9a] }),
            KnownFolder::System => (Guid { data1: 0x1ac14e77, data2: 0x02e7, data3: 0x4e5d, data4: [0xb7, 0x44, 0x2e, 0xb1, 0xae, 0x51, 0x98, 0xb7] }),
            KnownFolder::SystemX86 => (Guid { data1: 0xd65231b0, data2: 0xb2f1, data3: 0x4857, data4: [0xa4, 0xce, 0xa8, 0xe7, 0xc6, 0xea, 0x7d, 0x27] }),
            KnownFolder::Templates => (Guid { data1: 0xa63293e8, data2: 0x664e, data3: 0x48db, data4: [0xa0, 0x79, 0xdf, 0x75, 0x9e, 0x05, 0x09, 0xf7] }),
            KnownFolder::UserPinned => (Guid { data1: 0x9e3995ab, data2: 0x1f9c, data3: 0x4f13, data4: [0xb8, 0x27, 0x48, 0xb2, 0x4b, 0x6c, 0x71, 0x74] }),
            KnownFolder::UserProfiles => (Guid { data1: 0x0762d272, data2: 0xc50a, data3: 0x4bb0, data4: [0xa3, 0x82, 0x69, 0x7d, 0xcd, 0x72, 0x9b, 0x80] }),
            KnownFolder::UserProgramFiles => (Guid { data1: 0x5cd7aee2, data2: 0x2219, data3: 0x4a67, data4: [0xb8, 0x5d, 0x6c, 0x9c, 0xe1, 0x56, 0x60, 0xcb] }),
            KnownFolder::UserProgramFilesCommon => (Guid { data1: 0xbcbd3057, data2: 0xca5c, data3: 0x4622, data4: [0xb4, 0x2d, 0xbc, 0x56, 0xdb, 0x0a, 0xe5, 0x16] }),
            KnownFolder::UsersFiles => (Guid { data1: 0xf3ce0f7c, data2: 0x4901, data3: 0x4acc, data4: [0x86, 0x48, 0xd5, 0xd4, 0x4b, 0x04, 0xef, 0x8f] }),
            KnownFolder::UsersLibraries => (Guid { data1: 0xa302545d, data2: 0xdeff, data3: 0x464b, data4: [0xab, 0xe8, 0x61, 0xc8, 0x64, 0x8d, 0x93, 0x9b] }),
            KnownFolder::Videos => (Guid { data1: 0x18989b1d, data2: 0x99b5, data3: 0x455b, data4: [0x84, 0x1c, 0xab, 0x7c, 0x74, 0xe4, 0xdd, 0xfc] }),
            KnownFolder::VideosLibrary => (Guid { data1: 0x491e922f, data2: 0x5643, data3: 0x4af4, data4: [0xa7, 0xeb, 0x4e, 0x7a, 0x13, 0x8d, 0x81, 0x74] }),
            KnownFolder::Windows => (Guid { data1: 0xf38bf404, data2: 0x1d43, data3: 0x42f2, data4: [0x93, 0x05, 0x67, 0xde, 0x0b, 0x28, 0xfc, 0x23] }),
        }
    }
}

/// Whether two symbolic names are the platform's current and former name
/// for one and the same directory, and so share one identifier.
pub open spec fn same_directory_alias(a: KnownFolder, b: KnownFolder) -> bool {
    ||| a is OneDrive && b is SkyDrive
    ||| a is SkyDrive && b is OneDrive
}

/// Whether an identifier has exactly the given sixteen bytes.
pub open spec fn guid_is(g: Guid, d1: u32, d2: u16, d3: u16, b0: u8, b1: u8, b2: u8, b3: u8, b4: u8, b5: u8, b6: u8, b7: u8) -> bool {
    g.data1 == d1 && g.data2 == d2 && g.data3 == d3 && g.data4[0] == b0 && g.data4[1] == b1
        && g.data4[2] == b2 && g.data4[3] == b3 && g.data4[4] == b4 && g.data4[5] == b5
        && g.data4[6] == b6 && g.data4[7] == b7
}

/// The catalog's reverse reading: the symbolic name an identifier stands
/// for, or `None` for an identifier outside the catalog.
pub open spec fn folder_of(g: Guid) -> Option<KnownFolder> {
    if guid_is(g, 0x008ca0b1, 0x55b4, 0x4c56, 0xb8, 0xa8, 0x4d, 0xe4, 0xb2, 0x99, 0xd3, 0xbe) {
        Some(KnownFolder::AccountPictures)
    } else if guid_is(g, 0xde61d971, 0x5ebc, 0x4f02, 0xa3, 0xa9, 0x6c, 0x82, 0x89, 0x5e, 0x5c, 0x04) {
        Some(KnownFolder::AddNewPrograms)
    } else if guid_is(g, 0x724ef170, 0xa42d, 0x4fef, 0x9f, 0x26, 0xb6, 0x0e, 0x84, 0x6f, 0xba, 0x4f) {
        Some(KnownFolder::AdminTools)
    } else if guid_is(g, 0x7ad67899, 0x66af, 0x43ba, 0x91, 0x56, 0x6a, 0xad, 0x42, 0xe6, 0xc5, 0x96) {
        Some(KnownFolder::AllAppMods)
    } else if guid_is(g, 0xedc0fe71, 0x98d8, 0x4f4a, 0xb9, 0x20, 0xc8, 0xdc, 0x13, 0x3c, 0xb1, 0x65) {
        Some(KnownFolder::AppCaptures)
    } else if guid_is(g, 0xb2c5e279, 0x7add, 0x439f, 0xb2, 0x8c, 0xc4, 0x1f, 0xe1, 0xbb, 0xf6, 0x72) {
        Some(KnownFolder::AppDataDesktop)
    } else if guid_is(g, 0x7be16610, 0x1f7f, 0x44ac, 0xbf, 0xf0, 0x83, 0xe1, 0x5f, 0x2f, 0xfc, 0xa1) {
        Some(KnownFolder::AppDataDocuments)
    } else if guid_is(g, 0x7cfbefbc, 0xde1f, 0x45aa, 0xb8, 0x43, 0xa5, 0x42, 0xac, 0x53, 0x6c, 0xc9) {
        Some(KnownFolder::AppDataFavorites)
    } else if guid_is(g, 0x559d40a3, 0xa036, 0x40fa, 0xaf, 0x61, 0x84, 0xcb, 0x43, 0x0a, 0x4d, 0x34) {
        Some(KnownFolder::AppDataProgramData)
    } else if guid_is(g, 0xa305ce99, 0xf527, 0x492b, 0x8b, 0x1a, 0x7e, 0x76, 0xfa, 0x98, 0xd6, 0xe4) {
        Some(KnownFolder::AppUpdates)
    } else if guid_is(g, 0xa3918781, 0xe5f2, 0x4890, 0xb3, 0xd9, 0xa7, 0xe5, 0x43, 0x32, 0x32, 0x8c) {
        Some(KnownFolder::ApplicationShortcuts)
    } else if guid_is(g, 0x1e87508d, 0x89c2, 0x42f0, 0x8a, 0x7e, 0x64, 0x5a, 0x0f, 0x50, 0xca, 0x58) {
        Some(KnownFolder::AppsFolder)
    } else if guid_is(g, 0x9e52ab10, 0xf80d, 0x49df, 0xac, 0xb8, 0x43, 0x30, 0xf5, 0x68, 0x78, 0x55) {
        Some(KnownFolder::CDBurning)
    } else if guid_is(g, 0xab5fb87b, 0x7ce2, 0x4f83, 0x91, 0x5d, 0x55, 0x08, 0x46, 0xc9, 0x53, 0x7b) {
        Some(KnownFolder::CameraRoll)
    } else if guid_is(g, 0x2b20df75, 0x1eda, 0x4039, 0x80, 0x97, 0x38, 0x79, 0x82, 0x27, 0xd5, 0xb7) {
        Some(KnownFolder::CameraRollLibrary)
    } else if guid_is(g, 0xdf7266ac, 0x9274, 0x4867, 0x8d, 0x55, 0x3b, 0xd6, 0x61, 0xde, 0x87, 0x2d) {
        Some(KnownFolder::ChangeRemovePrograms)
    } else if guid_is(g, 0xd0384e7d, 0xbac3, 0x4797, 0x8f, 0x14, 0xcb, 0xa2, 0x29, 0xb3, 0x92, 0xb5) {
        Some(KnownFolder::CommonAdminTools)
    } else if guid_is(g, 0xc1bae2d0, 0x10df, 0x4334, 0xbe, 0xdd, 0x7a, 0xa2, 0x0b, 0x22, 0x7a, 0x9d) {
        Some(KnownFolder::CommonOEMLinks)
    } else if guid_is(g, 0x0139d44e, 0x6afe, 0x49f2, 0x86, 0x90, 0x3d, 0xaf, 0xca, 0xe6, 0xff, 0xb8) {
        Some(KnownFolder::CommonPrograms)
    } else if guid_is(g, 0xa4115719, 0xd62e, 0x491d, 0xaa, 0x7c, 0xe7, 0x4b, 0x8b, 0xe3, 0xb0, 0x67) {
        Some(KnownFolder::CommonStartMenu)
    } else if guid_is(g, 0xa440879f, 0x87a0, 0x4f7d, 0xb7, 0x00, 0x02, 0x07, 0xb9, 0x66, 0x19, 0x4a) {
        Some(KnownFolder::CommonStartMenuPlaces)
    } else if guid_is(g, 0x82a5ea35, 0xd9cd, 0x47c5, 0x96, 0x29, 0xe1, 0x5d, 0x2f, 0x71, 0x4e, 0x6e) {
        Some(KnownFolder::CommonStartup)
    } else if guid_is(g, 0xb94237e7, 0x57ac, 0x4347, 0x91, 0x51, 0xb0, 0x8c, 0x6c, 0x32, 0xd1, 0xf7) {
        Some(KnownFolder::CommonTemplates)
    } else if guid_is(g, 0x0ac0837c, 0xbbf8, 0x452a, 0x85, 0x0d, 0x79, 0xd0, 0x8e, 0x66, 0x7c, 0xa7) {
        Some(KnownFolder::ComputerFolder)
    } else if guid_is(g, 0x4bfefb45, 0x347d, 0x4006, 0xa5, 0xbe, 0xac, 0x0c, 0xb0, 0x56, 0x71, 0x92) {
        Some(KnownFolder::ConflictFolder)
    } else if guid_is(g, 0x6f0cd92b, 0x2e97, 0x45d1, 0x88, 0xff, 0xb0, 0xd1, 0x86, 0xb8, 0xde, 0xdd) {
        Some(KnownFolder::ConnectionsFolder)
    } else if guid_is(g, 0x56784854, 0xc6cb, 0x462b, 0x81, 0x69, 0x88, 0xe3, 0x50, 0xac, 0xb8, 0x82) {
        Some(KnownFolder::Contacts)
    } else if guid_is(g, 0x82a74aeb, 0xaeb4, 0x465c, 0xa0, 0x14, 0xd0, 0x97, 0xee, 0x34, 0x6d, 0x63) {
        Some(KnownFolder::ControlPanelFolder)
    } else if guid_is(g, 0x2b0f765d, 0xc0e9, 0x4171, 0x90, 0x8e, 0x08, 0xa6, 0x11, 0xb8, 0x4f, 0xf6) {
        Some(KnownFolder::Cookies)
    } else if guid_is(g, 0x3db40b20, 0x2a30, 0x4dbe, 0x91, 0x7e, 0x77, 0x1d, 0xd2, 0x1d, 0xd0, 0x99) {
        Some(KnownFolder::CurrentAppMods)
    } else if guid_is(g, 0xb4bfcc3a, 0xdb2c, 0x424c, 0xb0, 0x29, 0x7f, 0xe9, 0x9a, 0x87, 0xc6, 0x41) {
        Some(KnownFolder::Desktop)
    } else if guid_is(g, 0xdbe8e08e, 0x3053, 0x4bbc, 0xb1, 0x83, 0x2a, 0x7b, 0x2b, 0x19, 0x1e, 0x59) {
        Some(KnownFolder::DevelopmentFiles)
    } else if guid_is(g, 0x1c2ac1dc, 0x4358, 0x4b6c, 0x97, 0x33, 0xaf, 0x21, 0x15, 0x65, 0x76, 0xf0) {
        Some(KnownFolder::Device)
    } else if guid_is(g, 0x5ce4a5e9, 0xe4eb, 0x479d, 0xb8, 0x9f, 0x13, 0x0c, 0x02, 0x88, 0x61, 0x55) {
        Some(KnownFolder::DeviceMetadataStore)
    } else if guid_is(g, 0xfdd39ad0, 0x238f, 0x46af, 0xad, 0xb4, 0x6c, 0x85, 0x48, 0x03, 0x69, 0xc7) {
        Some(KnownFolder::Documents)
    } else if guid_is(g, 0x7b0db17d, 0x9cd2, 0x4a93, 0x97, 0x33, 0x46, 0xcc, 0x89, 0x02, 0x2e, 0x7c) {
        Some(KnownFolder::DocumentsLibrary)
    } else if guid_is(g, 0x374de290, 0x123f, 0x4565, 0x91, 0x64, 0x39, 0xc4, 0x92, 0x5e, 0x46, 0x7b) {
        Some(KnownFolder::Downloads)
    } else if guid_is(g, 0x1777f761, 0x68ad, 0x4d8a, 0x87, 0xbd, 0x30, 0xb7, 0x59, 0xfa, 0x33, 0xdd) {
        Some(KnownFolder::Favorites)
    } else if guid_is(g, 0xfd228cb7, 0xae11, 0x4ae3, 0x86, 0x4c, 0x16, 0xf3, 0x91, 0x0a, 0xb8, 0xfe) {
        Some(KnownFolder::Fonts)
    } else if guid_is(g, 0x054fae61, 0x4dd8, 0x4787, 0x80, 0xb6, 0x09, 0x02, 0x20, 0xc4, 0xb7, 0x00) {
        Some(KnownFolder::GameTasks)
    } else if guid_is(g, 0xcac52c1a, 0xb53d, 0x4edc, 0x92, 0xd7, 0x6b, 0x2e, 0x8a, 0xc1, 0x94, 0x34) {
        Some(KnownFolder::Games)
    } else if guid_is(g, 0xd9dc8a3b, 0xb784, 0x432e, 0xa7, 0x81, 0x5a, 0x11, 0x30, 0xa7, 0x59, 0x63) {
        Some(KnownFolder::History)
    } else if guid_is(g, 0x52528a6b, 0xb9e3, 0x4add, 0xb6, 0x0d, 0x58, 0x8c, 0x2d, 0xba, 0x84, 0x2d) {
        Some(KnownFolder::HomeGroup)
    } else if guid_is(g, 0x9b74b6a3, 0x0dfd, 0x4f11, 0x9e, 0x78, 0x5f, 0x78, 0x00, 0xf2, 0xe7, 0x72) {
        Some(KnownFolder::HomeGroupCurrentUser)
    } else if guid_is(g, 0xbcb5256f, 0x79f6, 0x4cee, 0xb7, 0x25, 0xdc, 0x34, 0xe4, 0x02, 0xfd, 0x46) {
        Some(KnownFolder::ImplicitAppShortcuts)
    } else if guid_is(g, 0x352481e8, 0x33be, 0x4251, 0xba, 0x85, 0x60, 0x07, 0xca, 0xed, 0xcf, 0x9d) {
        Some(KnownFolder::InternetCache)
    } else if guid_is(g, 0x4d9f7874, 0x4e0c, 0x4904, 0x96, 0x7b, 0x40, 0xb0, 0xd2, 0x0c, 0x3e, 0x4b) {
        Some(KnownFolder::InternetFolder)
    } else if guid_is(g, 0x1b3ea5dc, 0xb587, 0x4786, 0xb4, 0xef, 0xbd, 0x1d, 0xc3, 0x32, 0xae, 0xae) {
        Some(KnownFolder::Libraries)
    } else if guid_is(g, 0xbfb9d5e0, 0xc6a9, 0x404c, 0xb2, 0xb2, 0xae, 0x6d, 0xb6, 0xaf, 0x49, 0x68) {
        Some(KnownFolder::Links)
    } else if guid_is(g, 0xf1b32785, 0x6fba, 0x4fcf, 0x9d, 0x55, 0x7b, 0x8e, 0x7f, 0x15, 0x70, 0x91) {
        Some(KnownFolder::LocalAppData)
    } else if guid_is(g, 0xa520a1a4, 0x1780, 0x4ff6, 0xbd, 0x18, 0x16, 0x73, 0x43, 0xc5, 0xaf, 0x16) {
        Some(KnownFolder::LocalAppDataLow)
    } else if guid_is(g, 0xf42ee2d3, 0x909f, 0x4907, 0x88, 0x71, 0x4c, 0x22, 0xfc, 0x0b, 0xf7, 0x56) {
        Some(KnownFolder::LocalDocuments)
    } else if guid_is(g, 0x7d83ee9b, 0x2244, 0x4e70, 0xb1, 0xf5, 0x53, 0x93, 0x04, 0x2a, 0xf1, 0xe4) {
        Some(KnownFolder::LocalDownloads)
    } else if guid_is(g, 0xa0c69a99, 0x21c8, 0x4671, 0x87, 0x03, 0x79, 0x34, 0x16, 0x2f, 0xcf, 0x1d) {
        Some(KnownFolder::LocalMusic)
    } else if guid_is(g, 0x0ddd015d, 0xb06c, 0x45d5, 0x8c, 0x4c, 0xf5, 0x97, 0x13, 0x85, 0x46, 0x39) {
        Some(KnownFolder::LocalPictures)
    } else if guid_is(g, 0xb3eb08d3, 0xa1f3, 0x496b, 0x86, 0x5a, 0x42, 0xb5, 0x36, 0xcd, 0xa0, 0xec) {
        Some(KnownFolder::LocalStorage)
    } else if guid_is(g, 0x35286a68, 0x3c57, 0x41a1, 0xbb, 0xb1, 0x0e, 0xae, 0x73, 0xd7, 0x6c, 0x95) {
        Some(KnownFolder::LocalVideos)
    } else if guid_is(g, 0x2a00375e, 0x224c, 0x49de, 0xb8, 0xd1, 0x44, 0x0d, 0xf7, 0xef, 0x3d, 0xdc) {
        Some(KnownFolder::LocalizedResourcesDir)
    } else if guid_is(g, 0x4bd8d571, 0x6d19, 0x48d3, 0xbe, 0x97, 0x42, 0x22, 0x20, 0x08, 0x0e, 0x43) {
        Some(KnownFolder::Music)
    } else if guid_is(g, 0x2112ab0a, 0xc86a, 0x4ffe, 0xa3, 0x68, 0x0d, 0xe9, 0x6e, 0x47, 0x01, 0x2e) {
        Some(KnownFolder::MusicLibrary)
    } else if guid_is(g, 0xc5abbf53, 0xe17f, 0x4121, 0x89, 0x00, 0x86, 0x62, 0x6f, 0xc2, 0xc9, 0x73) {
        Some(KnownFolder::NetHood)
    } else if guid_is(g, 0xd20beec4, 0x5ca8, 0x4905, 0xae, 0x3b, 0xbf, 0x25, 0x1e, 0xa0, 0x9b, 0x53) {
        Some(KnownFolder::NetworkFolder)
    } else if guid_is(g, 0x31c0dd25, 0x9439, 0x4f12, 0xbf, 0x41, 0x7f, 0xf4, 0xed, 0xa3, 0x87, 0x22) {
        Some(KnownFolder::Objects3D)
    } else if guid_is(g, 0xa52bba46, 0xe9e1, 0x435f, 0xb3, 0xd9, 0x28, 0xda, 0xa6, 0x48, 0xc0, 0xf6) {
        Some(KnownFolder::OneDrive)
    } else if guid_is(g, 0x2c36c0aa, 0x5812, 0x4b87, 0xbf, 0xd0, 0x4c, 0xd0, 0xdf, 0xb1, 0x9b, 0x39) {
        Some(KnownFolder::OriginalImages)
    } else if guid_is(g, 0x69d2cf90, 0xfc33, 0x4fb7, 0x9a, 0x0c, 0xeb, 0xb0, 0xf0, 0xfc, 0xb4, 0x3c) {
        Some(KnownFolder::PhotoAlbums)
    } else if guid_is(g, 0x33e28130, 0x4e1e, 0x4676, 0x83, 0x5a, 0x98, 0x39, 0x5c, 0x3b, 0xc3, 0xbb) {
        Some(KnownFolder::Pictures)
    } else if guid_is(g, 0xa990ae9f, 0xa03b, 0x4e80, 0x94, 0xbc, 0x99, 0x12, 0xd7, 0x50, 0x41, 0x04) {
        Some(KnownFolder::PicturesLibrary)
    } else if guid_is(g, 0xde92c1c7, 0x837f, 0x4f69, 0xa3, 0xbb, 0x86, 0xe6, 0x31, 0x20, 0x4a, 0x23) {
        Some(KnownFolder::Playlists)
    } else if guid_is(g, 0x9274bd8d, 0xcfd1, 0x41c3, 0xb3, 0x5e, 0xb1, 0x3f, 0x55, 0xa7, 0x58, 0xf4) {
        Some(KnownFolder::PrintHood)
    } else if guid_is(g, 0x76fc4e2d, 0xd6ad, 0x4519, 0xa6, 0x63, 0x37, 0xbd, 0x56, 0x06, 0x81, 0x85) {
        Some(KnownFolder::PrintersFolder)
    } else if guid_is(g, 0x5e6c858f, 0x0e22, 0x4760, 0x9a, 0xfe, 0xea, 0x33, 0x17, 0xb6, 0x71, 0x73) {
        Some(KnownFolder::Profile)
    } else if guid_is(g, 0x62ab5d82, 0xfdc1, 0x4dc3, 0xa9, 0xdd, 0x07, 0x0d, 0x1d, 0x49, 0x5d, 0x97) {
        Some(KnownFolder::ProgramData)
    } else if guid_is(g, 0x905e63b6, 0xc1bf, 0x494e, 0xb2, 0x9c, 0x65, 0xb7, 0x32, 0xd3, 0xd2, 0x1a) {
        Some(KnownFolder::ProgramFiles)
    } else if guid_is(g, 0xf7f1ed05, 0x9f6d, 0x47a2, 0xaa, 0xae, 0x29, 0xd3, 0x17, 0xc6, 0xf0, 0x66) {
        Some(KnownFolder::ProgramFilesCommon)
    } else if guid_is(g, 0x6365d5a7, 0x0f0d, 0x45e5, 0x87, 0xf6, 0x0d, 0xa5, 0x6b, 0x6a, 0x4f, 0x7d) {
        Some(KnownFolder::ProgramFilesCommonX64)
    } else if guid_is(g, 0xde974d24, 0xd9c6, 0x4d3e, 0xbf, 0x91, 0xf4, 0x45, 0x51, 0x20, 0xb9, 0x17) {
        Some(KnownFolder::ProgramFilesCommonX86)
    } else if guid_is(g, 0x6d809377, 0x6af0, 0x444b, 0x89, 0x57, 0xa3, 0x77, 0x3f, 0x02, 0x20, 0x0e) {
        Some(KnownFolder::ProgramFilesX64)
    } else if guid_is(g, 0x7c5a40ef, 0xa0fb, 0x4bfc, 0x87, 0x4a, 0xc0, 0xf2, 0xe0, 0xb9, 0xfa, 0x8e) {
        Some(KnownFolder::ProgramFilesX86)
    } else if guid_is(g, 0xa77f5d77, 0x2e2b, 0x44c3, 0xa6, 0xa2, 0xab, 0xa6, 0x01, 0x05, 0x4a, 0x51) {
        Some(KnownFolder::Programs)
    } else if guid_is(g, 0xdfdf76a2, 0xc82a, 0x4d63, 0x90, 0x6a, 0x56, 0x44, 0xac, 0x45, 0x73, 0x85) {
        Some(KnownFolder::Public)
    } else if guid_is(g, 0xc4aa340d, 0xf20f, 0x4863, 0xaf, 0xef, 0xf8, 0x7e, 0xf2, 0xe6, 0xba, 0x25) {
        Some(KnownFolder::PublicDesktop)
    } else if guid_is(g, 0xed4824af, 0xdce4, 0x45a8, 0x81, 0xe2, 0xfc, 0x79, 0x65, 0x08, 0x36, 0x34) {
        Some(KnownFolder::PublicDocuments)
    } else if guid_is(g, 0x3d644c9b, 0x1fb8, 0x4f30, 0x9b, 0x45, 0xf6, 0x70, 0x23, 0x5f, 0x79, 0xc0) {
        Some(KnownFolder::PublicDownloads)
    } else if guid_is(g, 0xdebf2536, 0xe1a8, 0x4c59, 0xb6, 0xa2, 0x41, 0x45, 0x86, 0x47, 0x6a, 0xea) {
        Some(KnownFolder::PublicGameTasks)
    } else if guid_is(g, 0x48daf80b, 0xe6cf, 0x4f4e, 0xb8, 0x00, 0x0e, 0x69, 0xd8, 0x4e, 0xe3, 0x84) {
        Some(KnownFolder::PublicLibraries)
    } else if guid_is(g, 0x3214fab5, 0x9757, 0x4298, 0xbb, 0x61, 0x92, 0xa9, 0xde, 0xaa, 0x44, 0xff) {
        Some(KnownFolder::PublicMusic)
    } else if guid_is(g, 0xb6ebfb86, 0x6907, 0x413c, 0x9a, 0xf7, 0x4f, 0xc2, 0xab, 0xf0, 0x7c, 0xc5) {
        Some(KnownFolder::PublicPictures)
    } else if guid_is(g, 0xe555ab60, 0x153b, 0x4d17, 0x9f, 0x04, 0xa5, 0xfe, 0x99, 0xfc, 0x15, 0xec) {
        Some(KnownFolder::PublicRingtones)
    } else if guid_is(g, 0x0482af6c, 0x08f1, 0x4c34, 0x8c, 0x90, 0xe1, 0x7e, 0xc9, 0x8b, 0x1e, 0x17) {
        Some(KnownFolder::PublicUserTiles)
    } else if guid_is(g, 0x2400183a, 0x6185, 0x49fb, 0xa2, 0xd8, 0x4a, 0x39, 0x2a, 0x60, 0x2b, 0xa3) {
        Some(KnownFolder::PublicVideos)
    } else if guid_is(g, 0x52a4f021, 0x7b75, 0x48a9, 0x9f, 0x6b, 0x4b, 0x87, 0xa2, 0x10, 0xbc, 0x8f) {
        Some(KnownFolder::QuickLaunch)
    } else if guid_is(g, 0xae50c081, 0xebd2, 0x438a, 0x86, 0x55, 0x8a, 0x09, 0x2e, 0x34, 0x98, 0x7a) {
        Some(KnownFolder::Recent)
    } else if guid_is(g, 0x2f8b40c2, 0x83ed, 0x48ee, 0xb3, 0x83, 0xa1, 0xf1, 0x57, 0xec, 0x6f, 0x9a) {
        Some(KnownFolder::RecordedCalls)
    } else if guid_is(g, 0x1a6fdba2, 0xf42d, 0x4358, 0xa7, 0x98, 0xb7, 0x4d, 0x74, 0x59, 0x26, 0xc5) {
        Some(KnownFolder::RecordedTVLibrary)
    } else if guid_is(g, 0xb7534046, 0x3ecb, 0x4c18, 0xbe, 0x4e, 0x64, 0xcd, 0x4c, 0xb7, 0xd6, 0xac) {
        Some(KnownFolder::RecycleBinFolder)
    } else if guid_is(g, 0x8ad10c31, 0x2adb, 0x4296, 0xa8, 0xf7, 0xe4, 0x70, 0x12, 0x32, 0xc9, 0x72) {
        Some(KnownFolder::ResourceDir)
    } else if guid_is(g, 0x12d4c69e, 0x24ad, 0x4923, 0xbe, 0x19, 0x31, 0x32, 0x1c, 0x43, 0xa7, 0x67) {
        Some(KnownFolder::RetailDemo)
    } else if guid_is(g, 0xc870044b, 0xf49e, 0x4126, 0xa9, 0xc3, 0xb5, 0x2a, 0x1f, 0xf4, 0x11, 0xe8) {
        Some(KnownFolder::Ringtones)
    } else if guid_is(g, 0xaaa8d5a5, 0xf1d6, 0x4259, 0xba, 0xa8, 0x78, 0xe7, 0xef, 0x60, 0x83, 0x5e) {
        Some(KnownFolder::RoamedTileImages)
    } else if guid_is(g, 0x3eb685db, 0x65f9, 0x4cf6, 0xa0, 0x3a, 0xe3, 0xef, 0x65, 0x72, 0x9f, 0x3d) {
        Some(KnownFolder::RoamingAppData)
    } else if guid_is(g, 0x00bcfc5a, 0xed94, 0x4e48, 0x96, 0xa1, 0x3f, 0x62, 0x17, 0xf2, 0x19, 0x90) {
        Some(KnownFolder::RoamingTiles)
    } else if guid_is(g, 0xee32e446, 0x31ca, 0x4aba, 0x81, 0x4f, 0xa5, 0xeb, 0xd2, 0xfd, 0x6d, 0x5e) {
        Some(KnownFolder::SEARCH_CSC)
    } else if guid_is(g, 0x98ec0e18, 0x2098, 0x4d44, 0x86, 0x44, 0x66, 0x97, 0x93, 0x15, 0xa2, 0x81) {
        Some(KnownFolder::SEARCH_MAPI)
    } else if guid_is(g, 0xb250c668, 0xf57d, 0x4ee1, 0xa6, 0x3c, 0x29, 0x0e, 0xe7, 0xd1, 0xaa, 0x1f) {
        Some(KnownFolder::SampleMusic)
    } else if guid_is(g, 0xc4900540, 0x2379, 0x4c75, 0x84, 0x4b, 0x64, 0xe6, 0xfa, 0xf8, 0x71, 0x6b) {
        Some(KnownFolder::SamplePictures)
    } else if guid_is(g, 0x15ca69b3, 0x30ee, 0x49c1, 0xac, 0xe1, 0x6b, 0x5e, 0xc3, 0x72, 0xaf, 0xb5) {
        Some(KnownFolder::SamplePlaylists)
    } else if guid_is(g, 0x859ead94, 0x2e85, 0x48ad, 0xa7, 0x1a, 0x09, 0x69, 0xcb, 0x56, 0xa6, 0xcd) {
        Some(KnownFolder::SampleVideos)
    } else if guid_is(g, 0x4c5c32ff, 0xbb9d, 0x43b0, 0xb5, 0xb4, 0x2d, 0x72, 0xe5, 0x4e, 0xaa, 0xa4) {
        Some(KnownFolder::SavedGames)
    } else if guid_is(g, 0x3b193882, 0xd3ad, 0x4eab, 0x96, 0x5a, 0x69, 0x82, 0x9d, 0x1f, 0xb5, 0x9f) {
        Some(KnownFolder::SavedPictures)
    } else if guid_is(g, 0xe25b5812, 0xbe88, 0x4bd9, 0x94, 0xb0, 0x29, 0x23, 0x34, 0x77, 0xb6, 0xc3) {
        Some(KnownFolder::SavedPicturesLibrary)
    } else if guid_is(g, 0x7d1d3a04, 0xdebb, 0x4115, 0x95, 0xcf, 0x2f, 0x29, 0xda, 0x29, 0x20, 0xda) {
        Some(KnownFolder::SavedSearches)
    } else if guid_is(g, 0xb7bede81, 0xdf94, 0x4682, 0xa7, 0xd8, 0x57, 0xa5, 0x26, 0x20, 0xb8, 0x6f) {
        Some(KnownFolder::Screenshots)
    } else if guid_is(g, 0x0d4c3db6, 0x03a3, 0x462f, 0xa0, 0xe6, 0x08, 0x92, 0x4c, 0x41, 0xb5, 0xd4) {
        Some(KnownFolder::SearchHistory)
    } else if guid_is(g, 0x190337d1, 0xb8ca, 0x4121, 0xa6, 0x39, 0x6d, 0x47, 0x2d, 0x16, 0x97, 0x2a) {
        Some(KnownFolder::SearchHome)
    } else if guid_is(g, 0x7e636bfe, 0xdfa9, 0x4d5e, 0xb4, 0x56, 0xd7, 0xb3, 0x98, 0x51, 0xd8, 0xa9) {
        Some(KnownFolder::SearchTemplates)
    } else if guid_is(g, 0x8983036c, 0x27c0, 0x404b, 0x8f, 0x08, 0x10, 0x2d, 0x10, 0xdc, 0xfd, 0x74) {
        Some(KnownFolder::SendTo)
    } else if guid_is(g, 0x7b396e54, 0x9ec5, 0x4300, 0xbe, 0x0a, 0x24, 0x82, 0xeb, 0xae, 0x1a, 0x26) {
        Some(KnownFolder::SidebarDefaultParts)
    } else if guid_is(g, 0xa75d362e, 0x50fc, 0x4fb7, 0xac, 0x2c, 0xa8, 0xbe, 0xaa, 0x31, 0x44, 0x93) {
        Some(KnownFolder::SidebarParts)
    } else if guid_is(g, 0xa52bba46, 0xe9e1, 0x435f, 0xb3, 0xd9, 0x28, 0xda, 0xa6, 0x48, 0xc0, 0xf6) {
        Some(KnownFolder::SkyDrive)
    } else if guid_is(g, 0x767e6811, 0x49cb, 0x4273, 0x87, 0xc2, 0x20, 0xf3, 0x55, 0xe1, 0x08, 0x5b) {
        Some(KnownFolder::SkyDriveCameraRoll)
    } else if guid_is(g, 0x24d89e24, 0x2f19, 0x4534, 0x9d, 0xde, 0x6a, 0x66, 0x71, 0xfb, 0xb8, 0xfe) {
        Some(KnownFolder::SkyDriveDocuments)
    } else if guid_is(g, 0xc3f2459e, 0x80d6, 0x45dc, 0xbf, 0xef, 0x1f, 0x76, 0x9f, 0x2b, 0xe7, 0x30) {
        Some(KnownFolder::SkyDriveMusic)
    } else if guid_is(g, 0x339719b5, 0x8c47, 0x4894, 0x94, 0xc2, 0xd8, 0xf7, 0x7a, 0xdd, 0x44, 0xa6) {
        Some(KnownFolder::SkyDrivePictures)
    } else if guid_is(g, 0x625b53c3, 0xab48, 0x4ec1, 0xba, 0x1f, 0xa1, 0xef, 0x41, 0x46, 0xfc, 0x19) {
        Some(KnownFolder::StartMenu)
    } else if guid_is(g, 0xf26305ef, 0x6948, 0x40b9, 0xb2, 0x55, 0x81, 0x45, 0x3d, 0x09, 0xc7, 0x85) {
        Some(KnownFolder::StartMenuAllPrograms)
    } else if guid_is(g, 0xb97d20bb, 0xf46a, 0x4c97, 0xba, 0x10, 0x5e, 0x36, 0x08, 0x43, 0x08, 0x54) {
        Some(KnownFolder::Startup)
    } else if guid_is(g, 0x43668bf8, 0xc14e, 0x49b2, 0x97, 0xc9, 0x74, 0x77, 0x84, 0xd7, 0x84, 0xb7) {
        Some(KnownFolder::SyncManagerFolder)
    } else if guid_is(g, 0x289a9a43, 0xbe44, 0x4057, 0xa4, 0x1b, 0x58, 0x7a, 0x76, 0xd7, 0xe7, 0xf9) {
        Some(KnownFolder::SyncResultsFolder)
    } else if guid_is(g, 0x0f214138, 0xb1d3, 0x4a90, 0xbb, 0xa9, 0x27, 0xcb, 0xc0, 0xc5, 0x38, 0x9a) {
        Some(KnownFolder::SyncSetupFolder)
    } else if guid_is(g, 0x1ac14e77, 0x02e7, 0x4e5d, 0xb7, 0x44, 0x2e, 0xb1, 0xae, 0x51, 0x98, 0xb7) {
        Some(KnownFolder::System)
    } else if guid_is(g, 0xd65231b0, 0xb2f1, 0x4857, 0xa4, 0xce, 0xa8, 0xe7, 0xc6, 0xea, 0x7d, 0x27) {
        Some(KnownFolder::SystemX86)
    } else if guid_is(g, 0xa63293e8, 0x664e, 0x48db, 0xa0, 0x79, 0xdf, 0x75, 0x9e, 0x05, 0x09, 0xf7) {
        Some(KnownFolder::Templates)
    } else if guid_is(g, 0x9e3995ab, 0x1f9c, 0x4f13, 0xb8, 0x27, 0x48, 0xb2, 0x4b, 0x6c, 0x71, 0x74) {
        Some(KnownFolder::UserPinned)
    } else if guid_is(g, 0x0762d272, 0xc50a, 0x4bb0, 0xa3, 0x82, 0x69, 0x7d, 0xcd, 0x72, 0x9b, 0x80) {
        Some(KnownFolder::UserProfiles)
    } else if guid_is(g, 0x5cd7aee2, 0x2219, 0x4a67, 0xb8, 0x5d, 0x6c, 0x9c, 0xe1, 0x56, 0x60, 0xcb) {
        Some(KnownFolder::UserProgramFiles)
    } else if guid_is(g, 0xbcbd3057, 0xca5c, 0x4622, 0xb4, 0x2d, 0xbc, 0x56, 0xdb, 0x0a, 0xe5, 0x16) {
        Some(KnownFolder::UserProgramFilesCommon)
    } else if guid_is(g, 0xf3ce0f7c, 0x4901, 0x4acc, 0x86, 0x48, 0xd5, 0xd4, 0x4b, 0x04, 0xef, 0x8f) {
        Some(KnownFolder::UsersFiles)
    } else if guid_is(g, 0xa302545d, 0xdeff, 0x464b, 0xab, 0xe8, 0x61, 0xc8, 0x64, 0x8d, 0x93, 0x9b) {
        Some(KnownFolder::UsersLibraries)
    } else if guid_is(g, 0x18989b1d, 0x99b5, 0x455b, 0x84, 0x1c, 0xab, 0x7c, 0x74, 0xe4, 0xdd, 0xfc) {
        Some(KnownFolder::Videos)
    } else if guid_is(g, 0x491e922f, 0x5643, 0x4af4, 0xa7, 0xeb, 0x4e, 0x7a, 0x13, 0x8d, 0x81, 0x74) {
        Some(KnownFolder::VideosLibrary)
    } else if guid_is(g, 0xf38bf404, 0x1d43, 0x42f2, 0x93, 0x05, 0x67, 0xde, 0x0b, 0x28, 0xfc, 0x23) {
        Some(KnownFolder::Windows)
    } else {
        None
    }
}

#[verifier::rlimit(100)]
#[verifier::spinoff_prover]
proof fn lemma_catalog_roundtrip_part1(a: KnownFolder)
    ensures
        (a is AccountPictures || a is AppCaptures || a is AppDataProgramData || a is CDBurning || a is CommonAdminTools || a is CommonStartMenuPlaces || a is ConflictFolder || a is Cookies || a is Device || a is Downloads || a is Games || a is ImplicitAppShortcuts || a is Links || a is LocalDownloads || a is LocalVideos || a is NetHood || a is OriginalImages || a is Playlists || a is ProgramData || a is ProgramFilesCommonX86 || a is Public || a is PublicGameTasks || a is PublicRingtones || a is Recent || a is ResourceDir || a is RoamingAppData || a is SampleMusic || a is SavedGames || a is Screenshots || a is SendTo || a is SkyDriveCameraRoll || a is StartMenu || a is SyncResultsFolder || a is Templates || a is UserProgramFilesCommon || a is VideosLibrary) ==> (folder_of(a.guid_spec()) matches Some(f) && (f == a || same_directory_alias(f, a))),
{
    match a {
        KnownFolder::AccountPictures => assert(folder_of(KnownFolder::AccountPictures.guid_spec()) == Some(KnownFolder::AccountPictures)),
        KnownFolder::AppCaptures => assert(folder_of(KnownFolder::AppCaptures.guid_spec()) == Some(KnownFolder::AppCaptures)),
        KnownFolder::AppDataProgramData => assert(folder_of(KnownFolder::AppDataProgramData.guid_spec()) == Some(KnownFolder::AppDataProgramData)),
        KnownFolder::CDBurning => assert(folder_of(KnownFolder::CDBurning.guid_spec()) == Some(KnownFolder::CDBurning)),
        KnownFolder::CommonAdminTools => assert(folder_of(KnownFolder::CommonAdminTools.guid_spec()) == Some(KnownFolder::CommonAdminTools)),
        KnownFolder::CommonStartMenuPlaces => assert(folder_of(KnownFolder::CommonStartMenuPlaces.guid_spec()) == Some(KnownFolder::CommonStartMenuPlaces)),
        KnownFolder::ConflictFolder => assert(folder_of(KnownFolder::ConflictFolder.guid_spec()) == Some(KnownFolder::ConflictFolder)),
        KnownFolder::Cookies => assert(folder_of(KnownFolder::Cookies.guid_spec()) == Some(KnownFolder::Cookies)),
        KnownFolder::Device => assert(folder_of(KnownFolder::Device.guid_spec()) == Some(KnownFolder::Device)),
        KnownFolder::Downloads => assert(folder_of(KnownFolder::Downloads.guid_spec()) == Some(KnownFolder::Downloads)),
        KnownFolder::Games => assert(folder_of(KnownFolder::Games.guid_spec()) == Some(KnownFolder::Games)),
        KnownFolder::ImplicitAppShortcuts => assert(folder_of(KnownFolder::ImplicitAppShortcuts.guid_spec()) == Some(KnownFolder::ImplicitAppShortcuts)),
        KnownFolder::Links => assert(folder_of(KnownFolder::Links.guid_spec()) == Some(KnownFolder::Links)),
        KnownFolder::LocalDownloads => assert(folder_of(KnownFolder::LocalDownloads.guid_spec()) == Some(KnownFolder::LocalDownloads)),
        KnownFolder::LocalVideos => assert(folder_of(KnownFolder::LocalVideos.guid_spec()) == Some(KnownFolder::LocalVideos)),
        KnownFolder::NetHood => assert(folder_of(KnownFolder::NetHood.guid_spec()) == Some(KnownFolder::NetHood)),
        KnownFolder::OriginalImages => assert(folder_of(KnownFolder::OriginalImages.guid_spec()) == Some(KnownFolder::OriginalImages)),
        KnownFolder::Playlists => assert(folder_of(KnownFolder::Playlists.guid_spec()) == Some(KnownFolder::Playlists)),
        KnownFolder::ProgramData => assert(folder_of(KnownFolder::ProgramData.guid_spec()) == Some(KnownFolder::ProgramData)),
        KnownFolder::ProgramFilesCommonX86 => assert(folder_of(KnownFolder::ProgramFilesCommonX86.guid_spec()) == Some(KnownFolder::ProgramFilesCommonX86)),
        KnownFolder::Public => assert(folder_of(KnownFolder::Public.guid_spec()) == Some(KnownFolder::Public)),
        KnownFolder::PublicGameTasks => assert(folder_of(KnownFolder::PublicGameTasks.guid_spec()) == Some(KnownFolder::PublicGameTasks)),
        KnownFolder::PublicRingtones => assert(folder_of(KnownFolder::PublicRingtones.guid_spec()) == Some(KnownFolder::PublicRingtones)),
        KnownFolder::Recent => assert(folder_of(KnownFolder::Recent.guid_spec()) == Some(KnownFolder::Recent)),
        KnownFolder::ResourceDir => assert(folder_of(KnownFolder::ResourceDir.guid_spec()) == Some(KnownFolder::ResourceDir)),
        KnownFolder::RoamingAppData => assert(folder_of(KnownFolder::RoamingAppData.guid_spec()) == Some(KnownFolder::RoamingAppData)),
        KnownFolder::SampleMusic => assert(folder_of(KnownFolder::SampleMusic.guid_spec()) == Some(KnownFolder::SampleMusic)),
        KnownFolder::SavedGames => assert(folder_of(KnownFolder::SavedGames.guid_spec()) == Some(KnownFolder::SavedGames)),
        KnownFolder::Screenshots => assert(folder_of(KnownFolder::Screenshots.guid_spec()) == Some(KnownFolder::Screenshots)),
        KnownFolder::SendTo => assert(folder_of(KnownFolder::SendTo.guid_spec()) == Some(KnownFolder::SendTo)),
        KnownFolder::SkyDriveCameraRoll => assert(folder_of(KnownFolder::SkyDriveCameraRoll.guid_spec()) == Some(KnownFolder::SkyDriveCameraRoll)),
        KnownFolder::StartMenu => assert(folder_of(KnownFolder::StartMenu.guid_spec()) == Some(KnownFolder::StartMenu)),
        KnownFolder::SyncResultsFolder => assert(folder_of(KnownFolder::SyncResultsFolder.guid_spec()) == Some(KnownFolder::SyncResultsFolder)),
        KnownFolder::Templates => assert(folder_of(KnownFolder::Templates.guid_spec()) == Some(KnownFolder::Templates)),
        KnownFolder::UserProgramFilesCommon => assert(folder_of(KnownFolder::UserProgramFilesCommon.guid_spec()) == Some(KnownFolder::UserProgramFilesCommon)),
        KnownFolder::VideosLibrary => assert(folder_of(KnownFolder::VideosLibrary.guid_spec()) == Some(KnownFolder::VideosLibrary)),
        _ => (),
    }
}

#[verifier::rlimit(100)]
#[verifier::spinoff_prover]
proof fn lemma_catalog_roundtrip_part2(a: KnownFolder)
    ensures
        (a is AddNewPrograms || a is AppDataDesktop || a is AppUpdates || a is CameraRoll || a is CommonOEMLinks || a is CommonStartup || a is ConnectionsFolder || a is CurrentAppMods || a is DeviceMetadataStore || a is Favorites || a is History || a is InternetCache || a is LocalAppData || a is LocalMusic || a is LocalizedResourcesDir || a is NetworkFolder || a is PhotoAlbums || a is PrintHood || a is ProgramFiles || a is ProgramFilesX64 || a is PublicDesktop || a is PublicLibraries || a is PublicUserTiles || a is RecordedCalls || a is RetailDemo || a is RoamingTiles || a is SamplePictures || a is SavedPictures || a is SearchHistory || a is SidebarDefaultParts || a is SkyDriveDocuments || a is StartMenuAllPrograms || a is SyncSetupFolder || a is UserPinned || a is UsersFiles || a is Windows) ==> (folder_of(a.guid_spec()) matches Some(f) && (f == a || same_directory_alias(f, a))),
{
    match a {
        KnownFolder::AddNewPrograms => assert(folder_of(KnownFolder::AddNewPrograms.guid_spec()) == Some(KnownFolder::AddNewPrograms)),
        KnownFolder::AppDataDesktop => assert(folder_of(KnownFolder::AppDataDesktop.guid_spec()) == Some(KnownFolder::AppDataDesktop)),
        KnownFolder::AppUpdates => assert(folder_of(KnownFolder::AppUpdates.guid_spec()) == Some(KnownFolder::AppUpdates)),
        KnownFolder::CameraRoll => assert(folder_of(KnownFolder::CameraRoll.guid_spec()) == Some(KnownFolder::CameraRoll)),
        KnownFolder::CommonOEMLinks => assert(folder_of(KnownFolder::CommonOEMLinks.guid_spec()) == Some(KnownFolder::CommonOEMLinks)),
        KnownFolder::CommonStartup => assert(folder_of(KnownFolder::CommonStartup.guid_spec()) == Some(KnownFolder::CommonStartup)),
        KnownFolder::ConnectionsFolder => assert(folder_of(KnownFolder::ConnectionsFolder.guid_spec()) == Some(KnownFolder::ConnectionsFolder)),
        KnownFolder::CurrentAppMods => assert(folder_of(KnownFolder::CurrentAppMods.guid_spec()) == Some(KnownFolder::CurrentAppMods)),
        KnownFolder::DeviceMetadataStore => assert(folder_of(KnownFolder::DeviceMetadataStore.guid_spec()) == Some(KnownFolder::DeviceMetadataStore)),
        KnownFolder::Favorites => assert(folder_of(KnownFolder::Favorites.guid_spec()) == Some(KnownFolder::Favorites)),
        KnownFolder::History => assert(folder_of(KnownFolder::History.guid_spec()) == Some(KnownFolder::History)),
        KnownFolder::InternetCache => assert(folder_of(KnownFolder::InternetCache.guid_spec()) == Some(KnownFolder::InternetCache)),
        KnownFolder::LocalAppData => assert(folder_of(KnownFolder::LocalAppData.guid_spec()) == Some(KnownFolder::LocalAppData)),
        KnownFolder::LocalMusic => assert(folder_of(KnownFolder::LocalMusic.guid_spec()) == Some(KnownFolder::LocalMusic)),
        KnownFolder::LocalizedResourcesDir => assert(folder_of(KnownFolder::LocalizedResourcesDir.guid_spec()) == Some(KnownFolder::LocalizedResourcesDir)),
        KnownFolder::NetworkFolder => assert(folder_of(KnownFolder::NetworkFolder.guid_spec()) == Some(KnownFolder::NetworkFolder)),
        KnownFolder::PhotoAlbums => assert(folder_of(KnownFolder::PhotoAlbums.guid_spec()) == Some(KnownFolder::PhotoAlbums)),
        KnownFolder::PrintHood => assert(folder_of(KnownFolder::PrintHood.guid_spec()) == Some(KnownFolder::PrintHood)),
        KnownFolder::ProgramFiles => assert(folder_of(KnownFolder::ProgramFiles.guid_spec()) == Some(KnownFolder::ProgramFiles)),
        KnownFolder::ProgramFilesX64 => assert(folder_of(KnownFolder::ProgramFilesX64.guid_spec()) == Some(KnownFolder::ProgramFilesX64)),
        KnownFolder::PublicDesktop => assert(folder_of(KnownFolder::PublicDesktop.guid_spec()) == Some(KnownFolder::PublicDesktop)),
        KnownFolder::PublicLibraries => assert(folder_of(KnownFolder::PublicLibraries.guid_spec()) == Some(KnownFolder::PublicLibraries)),
        KnownFolder::PublicUserTiles => assert(folder_of(KnownFolder::PublicUserTiles.guid_spec()) == Some(KnownFolder::PublicUserTiles)),
        KnownFolder::RecordedCalls => assert(folder_of(KnownFolder::RecordedCalls.guid_spec()) == Some(KnownFolder::RecordedCalls)),
        KnownFolder::RetailDemo => assert(folder_of(KnownFolder::RetailDemo.guid_spec()) == Some(KnownFolder::RetailDemo)),
        KnownFolder::RoamingTiles => assert(folder_of(KnownFolder::RoamingTiles.guid_spec()) == Some(KnownFolder::RoamingTiles)),
        KnownFolder::SamplePictures => assert(folder_of(KnownFolder::SamplePictures.guid_spec()) == Some(KnownFolder::SamplePictures)),
        KnownFolder::SavedPictures => assert(folder_of(KnownFolder::SavedPictures.guid_spec()) == Some(KnownFolder::SavedPictures)),
        KnownFolder::SearchHistory => assert(folder_of(KnownFolder::SearchHistory.guid_spec()) == Some(KnownFolder::SearchHistory)),
        KnownFolder::SidebarDefaultParts => assert(folder_of(KnownFolder::SidebarDefaultParts.guid_spec()) == Some(KnownFolder::SidebarDefaultParts)),
        KnownFolder::SkyDriveDocuments => assert(folder_of(KnownFolder::SkyDriveDocuments.guid_spec()) == Some(KnownFolder::SkyDriveDocuments)),
        KnownFolder::StartMenuAllPrograms => assert(folder_of(KnownFolder::StartMenuAllPrograms.guid_spec()) == Some(KnownFolder::StartMenuAllPrograms)),
        KnownFolder::SyncSetupFolder => assert(folder_of(KnownFolder::SyncSetupFolder.guid_spec()) == Some(KnownFolder::SyncSetupFolder)),
        KnownFolder::UserPinned => assert(folder_of(KnownFolder::UserPinned.guid_spec()) == Some(KnownFolder::UserPinned)),
        KnownFolder::UsersFiles => assert(folder_of(KnownFolder::UsersFiles.guid_spec()) == Some(KnownFolder::UsersFiles)),
        KnownFolder::Windows => assert(folder_of(KnownFolder::Windows.guid_spec()) == Some(KnownFolder::Windows)),
        _ => (),
    }
}

#[verifier::rlimit(100)]
#[verifier::spinoff_prover]
proof fn lemma_catalog_roundtrip_part3(a: KnownFolder)
    ensures
        (a is AdminTools || a is AppDataDocuments || a is ApplicationShortcuts || a is CameraRollLibrary || a is CommonPrograms || a is CommonTemplates || a is Contacts || a is Desktop || a is Documents || a is Fonts || a is HomeGroup || a is InternetFolder || a is LocalAppDataLow || a is LocalPictures || a is Music || a is Objects3D || a is Pictures || a is PrintersFolder || a is ProgramFilesCommon || a is ProgramFilesX86 || a is PublicDocuments || a is PublicMusic || a is PublicVideos || a is RecordedTVLibrary || a is Ringtones || a is SEARCH_CSC || a is SamplePlaylists || a is SavedPicturesLibrary || a is SearchHome || a is SidebarParts || a is SkyDriveMusic || a is Startup || a is System || a is UserProfiles || a is UsersLibraries) ==> (folder_of(a.guid_spec()) matches Some(f) && (f == a || same_directory_alias(f, a))),
{
    match a {
        KnownFolder::AdminTools => assert(folder_of(KnownFolder::AdminTools.guid_spec()) == Some(KnownFolder::AdminTools)),
        KnownFolder::AppDataDocuments => assert(folder_of(KnownFolder::AppDataDocuments.guid_spec()) == Some(KnownFolder::AppDataDocuments)),
        KnownFolder::ApplicationShortcuts => assert(folder_of(KnownFolder::ApplicationShortcuts.guid_spec()) == Some(KnownFolder::ApplicationShortcuts)),
        KnownFolder::CameraRollLibrary => assert(folder_of(KnownFolder::CameraRollLibrary.guid_spec()) == Some(KnownFolder::CameraRollLibrary)),
        KnownFolder::CommonPrograms => assert(folder_of(KnownFolder::CommonPrograms.guid_spec()) == Some(KnownFolder::CommonPrograms)),
        KnownFolder::CommonTemplates => assert(folder_of(KnownFolder::CommonTemplates.guid_spec()) == Some(KnownFolder::CommonTemplates)),
        KnownFolder::Contacts => assert(folder_of(KnownFolder::Contacts.guid_spec()) == Some(KnownFolder::Contacts)),
        KnownFolder::Desktop => assert(folder_of(KnownFolder::Desktop.guid_spec()) == Some(KnownFolder::Desktop)),
        KnownFolder::Documents => assert(folder_of(KnownFolder::Documents.guid_spec()) == Some(KnownFolder::Documents)),
        KnownFolder::Fonts => assert(folder_of(KnownFolder::Fonts.guid_spec()) == Some(KnownFolder::Fonts)),
        KnownFolder::HomeGroup => assert(folder_of(KnownFolder::HomeGroup.guid_spec()) == Some(KnownFolder::HomeGroup)),
        KnownFolder::InternetFolder => assert(folder_of(KnownFolder::InternetFolder.guid_spec()) == Some(KnownFolder::InternetFolder)),
        KnownFolder::LocalAppDataLow => assert(folder_of(KnownFolder::LocalAppDataLow.guid_spec()) == Some(KnownFolder::LocalAppDataLow)),
        KnownFolder::LocalPictures => assert(folder_of(KnownFolder::LocalPictures.guid_spec()) == Some(KnownFolder::LocalPictures)),
        KnownFolder::Music => assert(folder_of(KnownFolder::Music.guid_spec()) == Some(KnownFolder::Music)),
        KnownFolder::Objects3D => assert(folder_of(KnownFolder::Objects3D.guid_spec()) == Some(KnownFolder::Objects3D)),
        KnownFolder::Pictures => assert(folder_of(KnownFolder::Pictures.guid_spec()) == Some(KnownFolder::Pictures)),
        KnownFolder::PrintersFolder => assert(folder_of(KnownFolder::PrintersFolder.guid_spec()) == Some(KnownFolder::PrintersFolder)),
        KnownFolder::ProgramFilesCommon => assert(folder_of(KnownFolder::ProgramFilesCommon.guid_spec()) == Some(KnownFolder::ProgramFilesCommon)),
        KnownFolder::ProgramFilesX86 => assert(folder_of(KnownFolder::ProgramFilesX86.guid_spec()) == Some(KnownFolder::ProgramFilesX86)),
        KnownFolder::PublicDocuments => assert(folder_of(KnownFolder::PublicDocuments.guid_spec()) == Some(KnownFolder::PublicDocuments)),
        KnownFolder::PublicMusic => assert(folder_of(KnownFolder::PublicMusic.guid_spec()) == Some(KnownFolder::PublicMusic)),
        KnownFolder::PublicVideos => assert(folder_of(KnownFolder::PublicVideos.guid_spec()) == Some(KnownFolder::PublicVideos)),
        KnownFolder::RecordedTVLibrary => assert(folder_of(KnownFolder::RecordedTVLibrary.guid_spec()) == Some(KnownFolder::RecordedTVLibrary)),
        KnownFolder::Ringtones => assert(folder_of(KnownFolder::Ringtones.guid_spec()) == Some(KnownFolder::Ringtones)),
        KnownFolder::SEARCH_CSC => assert(folder_of(KnownFolder::SEARCH_CSC.guid_spec()) == Some(KnownFolder::SEARCH_CSC)),
        KnownFolder::SamplePlaylists => assert(folder_of(KnownFolder::SamplePlaylists.guid_spec()) == Some(KnownFolder::SamplePlaylists)),
        KnownFolder::SavedPicturesLibrary => assert(folder_of(KnownFolder::SavedPicturesLibrary.guid_spec()) == Some(KnownFolder::SavedPicturesLibrary)),
        KnownFolder::SearchHome => assert(folder_of(KnownFolder::SearchHome.guid_spec()) == Some(KnownFolder::SearchHome)),
        KnownFolder::SidebarParts => assert(folder_of(KnownFolder::SidebarParts.guid_spec()) == Some(KnownFolder::SidebarParts)),
        KnownFolder::SkyDriveMusic => assert(folder_of(KnownFolder::SkyDriveMusic.guid_spec()) == Some(KnownFolder::SkyDriveMusic)),
        KnownFolder::Startup => assert(folder_of(KnownFolder::Startup.guid_spec()) == Some(KnownFolder::Startup)),
        KnownFolder::System => assert(folder_of(KnownFolder::System.guid_spec()) == Some(KnownFolder::System)),
        KnownFolder::UserProfiles => assert(folder_of(KnownFolder::UserProfiles.guid_spec()) == Some(KnownFolder::UserProfiles)),
        KnownFolder::UsersLibraries => assert(folder_of(KnownFolder::UsersLibraries.guid_spec()) == Some(KnownFolder::UsersLibraries)),
        _ => (),
    }
}

#[verifier::rlimit(100)]
#[verifier::spinoff_prover]
proof fn lemma_catalog_roundtrip_part4(a: KnownFolder)
    ensures
        (a is AllAppMods || a is AppDataFavorites || a is AppsFolder || a is ChangeRemovePrograms || a is CommonStartMenu || a is ComputerFolder || a is ControlPanelFolder || a is DevelopmentFiles || a is DocumentsLibrary || a is GameTasks || a is HomeGroupCurrentUser || a is Libraries || a is LocalDocuments || a is LocalStorage || a is MusicLibrary || a is OneDrive || a is PicturesLibrary || a is Profile || a is ProgramFilesCommonX64 || a is Programs || a is PublicDownloads || a is PublicPictures || a is QuickLaunch || a is RecycleBinFolder || a is RoamedTileImages || a is SEARCH_MAPI || a is SampleVideos || a is SavedSearches || a is SearchTemplates || a is SkyDrive || a is SkyDrivePictures || a is SyncManagerFolder || a is SystemX86 || a is UserProgramFiles || a is Videos) ==> (folder_of(a.guid_spec()) matches Some(f) && (f == a || same_directory_alias(f, a))),
{
    match a {
        KnownFolder::AllAppMods => assert(folder_of(KnownFolder::AllAppMods.guid_spec()) == Some(KnownFolder::AllAppMods)),
        KnownFolder::AppDataFavorites => assert(folder_of(KnownFolder::AppDataFavorites.guid_spec()) == Some(KnownFolder::AppDataFavorites)),
        KnownFolder::AppsFolder => assert(folder_of(KnownFolder::AppsFolder.guid_spec()) == Some(KnownFolder::AppsFolder)),
        KnownFolder::ChangeRemovePrograms => assert(folder_of(KnownFolder::ChangeRemovePrograms.guid_spec()) == Some(KnownFolder::ChangeRemovePrograms)),
        KnownFolder::CommonStartMenu => assert(folder_of(KnownFolder::CommonStartMenu.guid_spec()) == Some(KnownFolder::CommonStartMenu)),
        KnownFolder::ComputerFolder => assert(folder_of(KnownFolder::ComputerFolder.guid_spec()) == Some(KnownFolder::ComputerFolder)),
        KnownFolder::ControlPanelFolder => assert(folder_of(KnownFolder::ControlPanelFolder.guid_spec()) == Some(KnownFolder::ControlPanelFolder)),
        KnownFolder::DevelopmentFiles => assert(folder_of(KnownFolder::DevelopmentFiles.guid_spec()) == Some(KnownFolder::DevelopmentFiles)),
        KnownFolder::DocumentsLibrary => assert(folder_of(KnownFolder::DocumentsLibrary.guid_spec()) == Some(KnownFolder::DocumentsLibrary)),
        KnownFolder::GameTasks => assert(folder_of(KnownFolder::GameTasks.guid_spec()) == Some(KnownFolder::GameTasks)),
        KnownFolder::HomeGroupCurrentUser => assert(folder_of(KnownFolder::HomeGroupCurrentUser.guid_spec()) == Some(KnownFolder::HomeGroupCurrentUser)),
        KnownFolder::Libraries => assert(folder_of(KnownFolder::Libraries.guid_spec()) == Some(KnownFolder::Libraries)),
        KnownFolder::LocalDocuments => assert(folder_of(KnownFolder::LocalDocuments.guid_spec()) == Some(KnownFolder::LocalDocuments)),
        KnownFolder::LocalStorage => assert(folder_of(KnownFolder::LocalStorage.guid_spec()) == Some(KnownFolder::LocalStorage)),
        KnownFolder::MusicLibrary => assert(folder_of(KnownFolder::MusicLibrary.guid_spec()) == Some(KnownFolder::MusicLibrary)),
        KnownFolder::OneDrive => assert(folder_of(KnownFolder::OneDrive.guid_spec()) == Some(KnownFolder::OneDrive)),
        KnownFolder::PicturesLibrary => assert(folder_of(KnownFolder::PicturesLibrary.guid_spec()) == Some(KnownFolder::PicturesLibrary)),
        KnownFolder::Profile => assert(folder_of(KnownFolder::Profile.guid_spec()) == Some(KnownFolder::Profile)),
        KnownFolder::ProgramFilesCommonX64 => assert(folder_of(KnownFolder::ProgramFilesCommonX64.guid_spec()) == Some(KnownFolder::ProgramFilesCommonX64)),
        KnownFolder::Programs => assert(folder_of(KnownFolder::Programs.guid_spec()) == Some(KnownFolder::Programs)),
        KnownFolder::PublicDownloads => assert(folder_of(KnownFolder::PublicDownloads.guid_spec()) == Some(KnownFolder::PublicDownloads)),
        KnownFolder::PublicPictures => assert(folder_of(KnownFolder::PublicPictures.guid_spec()) == Some(KnownFolder::PublicPictures)),
        KnownFolder::QuickLaunch => assert(folder_of(KnownFolder::QuickLaunch.guid_spec()) == Some(KnownFolder::QuickLaunch)),
        KnownFolder::RecycleBinFolder => assert(folder_of(KnownFolder::RecycleBinFolder.guid_spec()) == Some(KnownFolder::RecycleBinFolder)),
        KnownFolder::RoamedTileImages => assert(folder_of(KnownFolder::RoamedTileImages.guid_spec()) == Some(KnownFolder::RoamedTileImages)),
        KnownFolder::SEARCH_MAPI => assert(folder_of(KnownFolder::SEARCH_MAPI.guid_spec()) == Some(KnownFolder::SEARCH_MAPI)),
        KnownFolder::SampleVideos => assert(folder_of(KnownFolder::SampleVideos.guid_spec()) == Some(KnownFolder::SampleVideos)),
        KnownFolder::SavedSearches => assert(folder_of(KnownFolder::SavedSearches.guid_spec()) == Some(KnownFolder::SavedSearches)),
        KnownFolder::SearchTemplates => assert(folder_of(KnownFolder::SearchTemplates.guid_spec()) == Some(KnownFolder::SearchTemplates)),
        KnownFolder::SkyDrive => assert(folder_of(KnownFolder::SkyDrive.guid_spec()) == Some(KnownFolder::OneDrive)),
        KnownFolder::SkyDrivePictures => assert(folder_of(KnownFolder::SkyDrivePictures.guid_spec()) == Some(KnownFolder::SkyDrivePictures)),
        KnownFolder::SyncManagerFolder => assert(folder_of(KnownFolder::SyncManagerFolder.guid_spec()) == Some(KnownFolder::SyncManagerFolder)),
        KnownFolder::SystemX86 => assert(folder_of(KnownFolder::SystemX86.guid_spec()) == Some(KnownFolder::SystemX86)),
        KnownFolder::UserProgramFiles => assert(folder_of(KnownFolder::UserProgramFiles.guid_spec()) == Some(KnownFolder::UserProgramFiles)),
        KnownFolder::Videos => assert(folder_of(KnownFolder::Videos.guid_spec()) == Some(KnownFolder::Videos)),
        _ => (),
    }
}

/// Looking a name's identifier back up in the catalog finds that name
/// again, or the other name of the same aliased directory.
pub proof fn lemma_catalog_roundtrip(a: KnownFolder)
    ensures
        folder_of(a.guid_spec()) matches Some(f) && (f == a || same_directory_alias(f, a)),
{
    lemma_catalog_roundtrip_part1(a);
    lemma_catalog_roundtrip_part2(a);
    lemma_catalog_roundtrip_part3(a);
    lemma_catalog_roundtrip_part4(a);
}

/// No two symbolic names share a platform identifier, except the one
/// directory the platform keeps under both its current and its former
/// name.
pub proof fn lemma_catalog_injective(a: KnownFolder, b: KnownFolder)
    ensures
        a.guid_spec() == b.guid_spec() ==> a == b || same_directory_alias(a, b),
{
    lemma_catalog_roundtrip(a);
    lemma_catalog_roundtrip(b);
}

} // verus!
