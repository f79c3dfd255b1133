//! The catalog against the platform's own identifier constants: every
//! symbolic name must map to exactly the identifier the system headers
//! declare for it.

use known_folders::Guid;
use known_folders::KnownFolder;

fn assert_matches_platform(g: Guid, w: windows_sys::core::GUID) {
    assert_eq!(g.data1, w.data1);
    assert_eq!(g.data2, w.data2);
    assert_eq!(g.data3, w.data3);
    assert_eq!(g.data4, w.data4);
}

#[test]
fn catalog_matches_platform_constants() {
    assert_matches_platform(KnownFolder::AccountPictures.to_guid(), windows_sys::Win32::UI::Shell::FOLDERID_AccountPictures);
    assert_matches_platform(KnownFolder::AddNewPrograms.to_guid(), windows_sys::Win32::UI::Shell::FOLDERID_AddNewPrograms);
    assert_matches_platform(KnownFolder::AdminTools.to_guid(), windows_sys::Win32::UI::Shell::FOLDERID_AdminTools);
    assert_matches_platform(KnownFolder::AllAppMods.to_guid(), windows_sys::Win32::UI::Shell::FOLDERID_AllAppMods);
    assert_matches_platform(KnownFolder::AppCaptures.to_guid(), windows_sys::Win32::UI::Shell::FOLDERID_AppCaptures);
    assert_matches_platform(KnownFolder::AppDataDesktop.to_guid(), windows_sys::Win32::UI::Shell::FOLDERID_AppDataDesktop);
    assert_matches_platform(KnownFolder::AppDataDocuments.to_guid(), windows_sys::Win32::UI::Shell::FOLDERID_AppDataDocuments);
    assert_matches_platform(KnownFolder::AppDataFavorites.to_guid(), windows_sys::Win32::UI::Shell::FOLDERID_AppDataFavorites);
    assert_matches_platform(KnownFolder::AppDataProgramData.to_guid(), windows_sys::Win32::UI::Shell::FOLDERID_AppDataProgramData);
    assert_matches_platform(KnownFolder::AppUpdates.to_guid(), windows_sys::Win32::UI::Shell::FOLDERID_AppUpdates);
    assert_matches_platform(KnownFolder::ApplicationShortcuts.to_guid(), windows_sys::Win32::UI::Shell::FOLDERID_ApplicationShortcuts);
    assert_matches_platform(KnownFolder::AppsFolder.to_guid(), windows_sys::Win32::UI::Shell::FOLDERID_AppsFolder);
    assert_matches_platform(KnownFolder::CDBurning.to_guid(), windows_sys::Win32::UI::Shell::FOLDERID_CDBurning);
    assert_matches_platform(KnownFolder::CameraRoll.to_guid(), windows_sys::Win32::UI::Shell::FOLDERID_CameraRoll);
    assert_matches_platform(KnownFolder::CameraRollLibrary.to_guid(), windows_sys::Win32::UI::Shell::FOLDERID_CameraRollLibrary);
    assert_matches_platform(KnownFolder::ChangeRemovePrograms.to_guid(), windows_sys::Win32::UI::Shell::FOLDERID_ChangeRemovePrograms);
    assert_matches_platform(KnownFolder::CommonAdminTools.to_guid(), windows_sys::Win32::UI::Shell::FOLDERID_CommonAdminTools);
    assert_matches_platform(KnownFolder::CommonOEMLinks.to_guid(), windows_sys::Win32::UI::Shell::FOLDERID_CommonOEMLinks);
    assert_matches_platform(KnownFolder::CommonPrograms.to_guid(), windows_sys::Win32::UI::Shell::FOLDERID_CommonPrograms);
    assert_matches_platform(KnownFolder::CommonStartMenu.to_guid(), windows_sys::Win32::UI::Shell::FOLDERID_CommonStartMenu);
    assert_matches_platform(KnownFolder::CommonStartMenuPlaces.to_guid(), windows_sys::Win32::UI::Shell::FOLDERID_CommonStartMenuPlaces);
    assert_matches_platform(KnownFolder::CommonStartup.to_guid(), windows_sys::Win32::UI::Shell::FOLDERID_CommonStartup);
    assert_matches_platform(KnownFolder::CommonTemplates.to_guid(), windows_sys::Win32::UI::Shell::FOLDERID_CommonTemplates);
    assert_matches_platform(KnownFolder::ComputerFolder.to_guid(), windows_sys::Win32::UI::Shell::FOLDERID_ComputerFolder);
    assert_matches_platform(KnownFolder::ConflictFolder.to_guid(), windows_sys::Win32::UI::Shell::FOLDERID_ConflictFolder);
    assert_matches_platform(KnownFolder::ConnectionsFolder.to_guid(), windows_sys::Win32::UI::Shell::FOLDERID_ConnectionsFolder);
    assert_matches_platform(KnownFolder::Contacts.to_guid(), windows_sys::Win32::UI::Shell::FOLDERID_Contacts);
    assert_matches_platform(KnownFolder::ControlPanelFolder.to_guid(), windows_sys::Win32::UI::Shell::FOLDERID_ControlPanelFolder);
    assert_matches_platform(KnownFolder::Cookies.to_guid(), windows_sys::Win32::UI::Shell::FOLDERID_Cookies);
    assert_matches_platform(KnownFolder::CurrentAppMods.to_guid(), windows_sys::Win32::UI::Shell::FOLDERID_CurrentAppMods);
    assert_matches_platform(KnownFolder::Desktop.to_guid(), windows_sys::Win32::UI::Shell::FOLDERID_Desktop);
    assert_matches_platform(KnownFolder::DevelopmentFiles.to_guid(), windows_sys::Win32::UI::Shell::FOLDERID_DevelopmentFiles);
    assert_matches_platform(KnownFolder::Device.to_guid(), windows_sys::Win32::UI::Shell::FOLDERID_Device);
    assert_matches_platform(KnownFolder::DeviceMetadataStore.to_guid(), windows_sys::Win32::UI::Shell::FOLDERID_DeviceMetadataStore);
    assert_matches_platform(KnownFolder::Documents.to_guid(), windows_sys::Win32::UI::Shell::FOLDERID_Documents);
    assert_matches_platform(KnownFolder::DocumentsLibrary.to_guid(), windows_sys::Win32::UI::Shell::FOLDERID_DocumentsLibrary);
    assert_matches_platform(KnownFolder::Downloads.to_guid(), windows_sys::Win32::UI::Shell::FOLDERID_Downloads);
    assert_matches_platform(KnownFolder::Favorites.to_guid(), windows_sys::Win32::UI::Shell::FOLDERID_Favorites);
    assert_matches_platform(KnownFolder::Fonts.to_guid(), windows_sys::Win32::UI::Shell::FOLDERID_Fonts);
    assert_matches_platform(KnownFolder::GameTasks.to_guid(), windows_sys::Win32::UI::Shell::FOLDERID_GameTasks);
    assert_matches_platform(KnownFolder::Games.to_guid(), windows_sys::Win32::UI::Shell::FOLDERID_Games);
    assert_matches_platform(KnownFolder::History.to_guid(), windows_sys::Win32::UI::Shell::FOLDERID_History);
    assert_matches_platform(KnownFolder::HomeGroup.to_guid(), windows_sys::Win32::UI::Shell::FOLDERID_HomeGroup);
    assert_matches_platform(KnownFolder::HomeGroupCurrentUser.to_guid(), windows_sys::Win32::UI::Shell::FOLDERID_HomeGroupCurrentUser);
    assert_matches_platform(KnownFolder::ImplicitAppShortcuts.to_guid(), windows_sys::Win32::UI::Shell::FOLDERID_ImplicitAppShortcuts);
    assert_matches_platform(KnownFolder::InternetCache.to_guid(), windows_sys::Win32::UI::Shell::FOLDERID_InternetCache);
    assert_matches_platform(KnownFolder::InternetFolder.to_guid(), windows_sys::Win32::UI::Shell::FOLDERID_InternetFolder);
    assert_matches_platform(KnownFolder::Libraries.to_guid(), windows_sys::Win32::UI::Shell::FOLDERID_Libraries);
    assert_matches_platform(KnownFolder::Links.to_guid(), windows_sys::Win32::UI::Shell::FOLDERID_Links);
    assert_matches_platform(KnownFolder::LocalAppData.to_guid(), windows_sys::Win32::UI::Shell::FOLDERID_LocalAppData);
    assert_matches_platform(KnownFolder::LocalAppDataLow.to_guid(), windows_sys::Win32::UI::Shell::FOLDERID_LocalAppDataLow);
    assert_matches_platform(KnownFolder::LocalDocuments.to_guid(), windows_sys::Win32::UI::Shell::FOLDERID_LocalDocuments);
    assert_matches_platform(KnownFolder::LocalDownloads.to_guid(), windows_sys::Win32::UI::Shell::FOLDERID_LocalDownloads);
    assert_matches_platform(KnownFolder::LocalMusic.to_guid(), windows_sys::Win32::UI::Shell::FOLDERID_LocalMusic);
    assert_matches_platform(KnownFolder::LocalPictures.to_guid(), windows_sys::Win32::UI::Shell::FOLDERID_LocalPictures);
    assert_matches_platform(KnownFolder::LocalStorage.to_guid(), windows_sys::Win32::UI::Shell::FOLDERID_LocalStorage);
    assert_matches_platform(KnownFolder::LocalVideos.to_guid(), windows_sys::Win32::UI::Shell::FOLDERID_LocalVideos);
    assert_matches_platform(KnownFolder::LocalizedResourcesDir.to_guid(), windows_sys::Win32::UI::Shell::FOLDERID_LocalizedResourcesDir);
    assert_matches_platform(KnownFolder::Music.to_guid(), windows_sys::Win32::UI::Shell::FOLDERID_Music);
    assert_matches_platform(KnownFolder::MusicLibrary.to_guid(), windows_sys::Win32::UI::Shell::FOLDERID_MusicLibrary);
    assert_matches_platform(KnownFolder::NetHood.to_guid(), windows_sys::Win32::UI::Shell::FOLDERID_NetHood);
    assert_matches_platform(KnownFolder::NetworkFolder.to_guid(), windows_sys::Win32::UI::Shell::FOLDERID_NetworkFolder);
    assert_matches_platform(KnownFolder::Objects3D.to_guid(), windows_sys::Win32::UI::Shell::FOLDERID_Objects3D);
    assert_matches_platform(KnownFolder::OneDrive.to_guid(), windows_sys::Win32::UI::Shell::FOLDERID_OneDrive);
    assert_matches_platform(KnownFolder::OriginalImages.to_guid(), windows_sys::Win32::UI::Shell::FOLDERID_OriginalImages);
    assert_matches_platform(KnownFolder::PhotoAlbums.to_guid(), windows_sys::Win32::UI::Shell::FOLDERID_PhotoAlbums);
    assert_matches_platform(KnownFolder::Pictures.to_guid(), windows_sys::Win32::UI::Shell::FOLDERID_Pictures);
    assert_matches_platform(KnownFolder::PicturesLibrary.to_guid(), windows_sys::Win32::UI::Shell::FOLDERID_PicturesLibrary);
    assert_matches_platform(KnownFolder::Playlists.to_guid(), windows_sys::Win32::UI::Shell::FOLDERID_Playlists);
    assert_matches_platform(KnownFolder::PrintHood.to_guid(), windows_sys::Win32::UI::Shell::FOLDERID_PrintHood);
    assert_matches_platform(KnownFolder::PrintersFolder.to_guid(), windows_sys::Win32::UI::Shell::FOLDERID_PrintersFolder);
    assert_matches_platform(KnownFolder::Profile.to_guid(), windows_sys::Win32::UI::Shell::FOLDERID_Profile);
    assert_matches_platform(KnownFolder::ProgramData.to_guid(), windows_sys::Win32::UI::Shell::FOLDERID_ProgramData);
    assert_matches_platform(KnownFolder::ProgramFiles.to_guid(), windows_sys::Win32::UI::Shell::FOLDERID_ProgramFiles);
    assert_matches_platform(KnownFolder::ProgramFilesCommon.to_guid(), windows_sys::Win32::UI::Shell::FOLDERID_ProgramFilesCommon);
    assert_matches_platform(KnownFolder::ProgramFilesCommonX64.to_guid(), windows_sys::Win32::UI::Shell::FOLDERID_ProgramFilesCommonX64);
    assert_matches_platform(KnownFolder::ProgramFilesCommonX86.to_guid(), windows_sys::Win32::UI::Shell::FOLDERID_ProgramFilesCommonX86);
    assert_matches_platform(KnownFolder::ProgramFilesX64.to_guid(), windows_sys::Win32::UI::Shell::FOLDERID_ProgramFilesX64);
    assert_matches_platform(KnownFolder::ProgramFilesX86.to_guid(), windows_sys::Win32::UI::Shell::FOLDERID_ProgramFilesX86);
    assert_matches_platform(KnownFolder::Programs.to_guid(), windows_sys::Win32::UI::Shell::FOLDERID_Programs);
    assert_matches_platform(KnownFolder::Public.to_guid(), windows_sys::Win32::UI::Shell::FOLDERID_Public);
    assert_matches_platform(KnownFolder::PublicDesktop.to_guid(), windows_sys::Win32::UI::Shell::FOLDERID_PublicDesktop);
    assert_matches_platform(KnownFolder::PublicDocuments.to_guid(), windows_sys::Win32::UI::Shell::FOLDERID_PublicDocuments);
    assert_matches_platform(KnownFolder::PublicDownloads.to_guid(), windows_sys::Win32::UI::Shell::FOLDERID_PublicDownloads);
    assert_matches_platform(KnownFolder::PublicGameTasks.to_guid(), windows_sys::Win32::UI::Shell::FOLDERID_PublicGameTasks);
    assert_matches_platform(KnownFolder::PublicLibraries.to_guid(), windows_sys::Win32::UI::Shell::FOLDERID_PublicLibraries);
    assert_matches_platform(KnownFolder::PublicMusic.to_guid(), windows_sys::Win32::UI::Shell::FOLDERID_PublicMusic);
    assert_matches_platform(KnownFolder::PublicPictures.to_guid(), windows_sys::Win32::UI::Shell::FOLDERID_PublicPictures);
    assert_matches_platform(KnownFolder::PublicRingtones.to_guid(), windows_sys::Win32::UI::Shell::FOLDERID_PublicRingtones);
    assert_matches_platform(KnownFolder::PublicUserTiles.to_guid(), windows_sys::Win32::UI::Shell::FOLDERID_PublicUserTiles);
    assert_matches_platform(KnownFolder::PublicVideos.to_guid(), windows_sys::Win32::UI::Shell::FOLDERID_PublicVideos);
    assert_matches_platform(KnownFolder::QuickLaunch.to_guid(), windows_sys::Win32::UI::Shell::FOLDERID_QuickLaunch);
    assert_matches_platform(KnownFolder::Recent.to_guid(), windows_sys::Win32::UI::Shell::FOLDERID_Recent);
    assert_matches_platform(KnownFolder::RecordedCalls.to_guid(), windows_sys::Win32::UI::Shell::FOLDERID_RecordedCalls);
    assert_matches_platform(KnownFolder::RecordedTVLibrary.to_guid(), windows_sys::Win32::UI::Shell::FOLDERID_RecordedTVLibrary);
    assert_matches_platform(KnownFolder::RecycleBinFolder.to_guid(), windows_sys::Win32::UI::Shell::FOLDERID_RecycleBinFolder);
    assert_matches_platform(KnownFolder::ResourceDir.to_guid(), windows_sys::Win32::UI::Shell::FOLDERID_ResourceDir);
    assert_matches_platform(KnownFolder::RetailDemo.to_guid(), windows_sys::Win32::UI::Shell::FOLDERID_RetailDemo);
    assert_matches_platform(KnownFolder::Ringtones.to_guid(), windows_sys::Win32::UI::Shell::FOLDERID_Ringtones);
    assert_matches_platform(KnownFolder::RoamedTileImages.to_guid(), windows_sys::Win32::UI::Shell::FOLDERID_RoamedTileImages);
    assert_matches_platform(KnownFolder::RoamingAppData.to_guid(), windows_sys::Win32::UI::Shell::FOLDERID_RoamingAppData);
    assert_matches_platform(KnownFolder::RoamingTiles.to_guid(), windows_sys::Win32::UI::Shell::FOLDERID_RoamingTiles);
    assert_matches_platform(KnownFolder::SEARCH_CSC.to_guid(), windows_sys::Win32::UI::Shell::FOLDERID_SEARCH_CSC);
    assert_matches_platform(KnownFolder::SEARCH_MAPI.to_guid(), windows_sys::Win32::UI::Shell::FOLDERID_SEARCH_MAPI);
    assert_matches_platform(KnownFolder::SampleMusic.to_guid(), windows_sys::Win32::UI::Shell::FOLDERID_SampleMusic);
    assert_matches_platform(KnownFolder::SamplePictures.to_guid(), windows_sys::Win32::UI::Shell::FOLDERID_SamplePictures);
    assert_matches_platform(KnownFolder::SamplePlaylists.to_guid(), windows_sys::Win32::UI::Shell::FOLDERID_SamplePlaylists);
    assert_matches_platform(KnownFolder::SampleVideos.to_guid(), windows_sys::Win32::UI::Shell::FOLDERID_SampleVideos);
    assert_matches_platform(KnownFolder::SavedGames.to_guid(), windows_sys::Win32::UI::Shell::FOLDERID_SavedGames);
    assert_matches_platform(KnownFolder::SavedPictures.to_guid(), windows_sys::Win32::UI::Shell::FOLDERID_SavedPictures);
    assert_matches_platform(KnownFolder::SavedPicturesLibrary.to_guid(), windows_sys::Win32::UI::Shell::FOLDERID_SavedPicturesLibrary);
    assert_matches_platform(KnownFolder::SavedSearches.to_guid(), windows_sys::Win32::UI::Shell::FOLDERID_SavedSearches);
    assert_matches_platform(KnownFolder::Screenshots.to_guid(), windows_sys::Win32::UI::Shell::FOLDERID_Screenshots);
    assert_matches_platform(KnownFolder::SearchHistory.to_guid(), windows_sys::Win32::UI::Shell::FOLDERID_SearchHistory);
    assert_matches_platform(KnownFolder::SearchHome.to_guid(), windows_sys::Win32::UI::Shell::FOLDERID_SearchHome);
    assert_matches_platform(KnownFolder::SearchTemplates.to_guid(), windows_sys::Win32::UI::Shell::FOLDERID_SearchTemplates);
    assert_matches_platform(KnownFolder::SendTo.to_guid(), windows_sys::Win32::UI::Shell::FOLDERID_SendTo);
    assert_matches_platform(KnownFolder::SidebarDefaultParts.to_guid(), windows_sys::Win32::UI::Shell::FOLDERID_SidebarDefaultParts);
    assert_matches_platform(KnownFolder::SidebarParts.to_guid(), windows_sys::Win32::UI::Shell::FOLDERID_SidebarParts);
    assert_matches_platform(KnownFolder::SkyDrive.to_guid(), windows_sys::Win32::UI::Shell::FOLDERID_SkyDrive);
    assert_matches_platform(KnownFolder::SkyDriveCameraRoll.to_guid(), windows_sys::Win32::UI::Shell::FOLDERID_SkyDriveCameraRoll);
    assert_matches_platform(KnownFolder::SkyDriveDocuments.to_guid(), windows_sys::Win32::UI::Shell::FOLDERID_SkyDriveDocuments);
    assert_matches_platform(KnownFolder::SkyDriveMusic.to_guid(), windows_sys::Win32::UI::Shell::FOLDERID_SkyDriveMusic);
    assert_matches_platform(KnownFolder::SkyDrivePictures.to_guid(), windows_sys::Win32::UI::Shell::FOLDERID_SkyDrivePictures);
    assert_matches_platform(KnownFolder::StartMenu.to_guid(), windows_sys::Win32::UI::Shell::FOLDERID_StartMenu);
    assert_matches_platform(KnownFolder::StartMenuAllPrograms.to_guid(), windows_sys::Win32::UI::Shell::FOLDERID_StartMenuAllPrograms);
    assert_matches_platform(KnownFolder::Startup.to_guid(), windows_sys::Win32::UI::Shell::FOLDERID_Startup);
    assert_matches_platform(KnownFolder::SyncManagerFolder.to_guid(), windows_sys::Win32::UI::Shell::FOLDERID_SyncManagerFolder);
    assert_matches_platform(KnownFolder::SyncResultsFolder.to_guid(), windows_sys::Win32::UI::Shell::FOLDERID_SyncResultsFolder);
    assert_matches_platform(KnownFolder::SyncSetupFolder.to_guid(), windows_sys::Win32::UI::Shell::FOLDERID_SyncSetupFolder);
    assert_matches_platform(KnownFolder::System.to_guid(), windows_sys::Win32::UI::Shell::FOLDERID_System);
    assert_matches_platform(KnownFolder::SystemX86.to_guid(), windows_sys::Win32::UI::Shell::FOLDERID_SystemX86);
    assert_matches_platform(KnownFolder::Templates.to_guid(), windows_sys::Win32::UI::Shell::FOLDERID_Templates);
    assert_matches_platform(KnownFolder::UserPinned.to_guid(), windows_sys::Win32::UI::Shell::FOLDERID_UserPinned);
    assert_matches_platform(KnownFolder::UserProfiles.to_guid(), windows_sys::Win32::UI::Shell::FOLDERID_UserProfiles);
    assert_matches_platform(KnownFolder::UserProgramFiles.to_guid(), windows_sys::Win32::UI::Shell::FOLDERID_UserProgramFiles);
    assert_matches_platform(KnownFolder::UserProgramFilesCommon.to_guid(), windows_sys::Win32::UI::Shell::FOLDERID_UserProgramFilesCommon);
    assert_matches_platform(KnownFolder::UsersFiles.to_guid(), windows_sys::Win32::UI::Shell::FOLDERID_UsersFiles);
    assert_matches_platform(KnownFolder::UsersLibraries.to_guid(), windows_sys::Win32::UI::Shell::FOLDERID_UsersLibraries);
    assert_matches_platform(KnownFolder::Videos.to_guid(), windows_sys::Win32::UI::Shell::FOLDERID_Videos);
    assert_matches_platform(KnownFolder::VideosLibrary.to_guid(), windows_sys::Win32::UI::Shell::FOLDERID_VideosLibrary);
    assert_matches_platform(KnownFolder::Windows.to_guid(), windows_sys::Win32::UI::Shell::FOLDERID_Windows);
}

#[test]
fn catalog_is_total() {
    // Every variant yields an identifier; none is the nil identifier.
    let all: Vec<KnownFolder> = vec![
        KnownFolder::AccountPictures,
        KnownFolder::AddNewPrograms,
        KnownFolder::AdminTools,
        KnownFolder::AllAppMods,
        KnownFolder::AppCaptures,
        KnownFolder::AppDataDesktop,
        KnownFolder::AppDataDocuments,
        KnownFolder::AppDataFavorites,
        KnownFolder::AppDataProgramData,
        KnownFolder::AppUpdates,
        KnownFolder::ApplicationShortcuts,
        KnownFolder::AppsFolder,
        KnownFolder::CDBurning,
        KnownFolder::CameraRoll,
        KnownFolder::CameraRollLibrary,
        KnownFolder::ChangeRemovePrograms,
        KnownFolder::CommonAdminTools,
        KnownFolder::CommonOEMLinks,
        KnownFolder::CommonPrograms,
        KnownFolder::CommonStartMenu,
        KnownFolder::CommonStartMenuPlaces,
        KnownFolder::CommonStartup,
        KnownFolder::CommonTemplates,
        KnownFolder::ComputerFolder,
        KnownFolder::ConflictFolder,
        KnownFolder::ConnectionsFolder,
        KnownFolder::Contacts,
        KnownFolder::ControlPanelFolder,
        KnownFolder::Cookies,
        KnownFolder::CurrentAppMods,
        KnownFolder::Desktop,
        KnownFolder::DevelopmentFiles,
        KnownFolder::Device,
        KnownFolder::DeviceMetadataStore,
        KnownFolder::Documents,
        KnownFolder::DocumentsLibrary,
        KnownFolder::Downloads,
        KnownFolder::Favorites,
        KnownFolder::Fonts,
        KnownFolder::GameTasks,
        KnownFolder::Games,
        KnownFolder::History,
        KnownFolder::HomeGroup,
        KnownFolder::HomeGroupCurrentUser,
        KnownFolder::ImplicitAppShortcuts,
        KnownFolder::InternetCache,
        KnownFolder::InternetFolder,
        KnownFolder::Libraries,
        KnownFolder::Links,
        KnownFolder::LocalAppData,
        KnownFolder::LocalAppDataLow,
        KnownFolder::LocalDocuments,
        KnownFolder::LocalDownloads,
        KnownFolder::LocalMusic,
        KnownFolder::LocalPictures,
        KnownFolder::LocalStorage,
        KnownFolder::LocalVideos,
        KnownFolder::LocalizedResourcesDir,
        KnownFolder::Music,
        KnownFolder::MusicLibrary,
        KnownFolder::NetHood,
        KnownFolder::NetworkFolder,
        KnownFolder::Objects3D,
        KnownFolder::OneDrive,
        KnownFolder::OriginalImages,
        KnownFolder::PhotoAlbums,
        KnownFolder::Pictures,
        KnownFolder::PicturesLibrary,
        KnownFolder::Playlists,
        KnownFolder::PrintHood,
        KnownFolder::PrintersFolder,
        KnownFolder::Profile,
        KnownFolder::ProgramData,
        KnownFolder::ProgramFiles,
        KnownFolder::ProgramFilesCommon,
        KnownFolder::ProgramFilesCommonX64,
        KnownFolder::ProgramFilesCommonX86,
        KnownFolder::ProgramFilesX64,
        KnownFolder::ProgramFilesX86,
        KnownFolder::Programs,
        KnownFolder::Public,
        KnownFolder::PublicDesktop,
        KnownFolder::PublicDocuments,
        KnownFolder::PublicDownloads,
        KnownFolder::PublicGameTasks,
        KnownFolder::PublicLibraries,
        KnownFolder::PublicMusic,
        KnownFolder::PublicPictures,
        KnownFolder::PublicRingtones,
        KnownFolder::PublicUserTiles,
        KnownFolder::PublicVideos,
        KnownFolder::QuickLaunch,
        KnownFolder::Recent,
        KnownFolder::RecordedCalls,
        KnownFolder::RecordedTVLibrary,
        KnownFolder::RecycleBinFolder,
        KnownFolder::ResourceDir,
        KnownFolder::RetailDemo,
        KnownFolder::Ringtones,
        KnownFolder::RoamedTileImages,
        KnownFolder::RoamingAppData,
        KnownFolder::RoamingTiles,
        KnownFolder::SEARCH_CSC,
        KnownFolder::SEARCH_MAPI,
        KnownFolder::SampleMusic,
        KnownFolder::SamplePictures,
        KnownFolder::SamplePlaylists,
        KnownFolder::SampleVideos,
        KnownFolder::SavedGames,
        KnownFolder::SavedPictures,
        KnownFolder::SavedPicturesLibrary,
        KnownFolder::SavedSearches,
        KnownFolder::Screenshots,
        KnownFolder::SearchHistory,
        KnownFolder::SearchHome,
        KnownFolder::SearchTemplates,
        KnownFolder::SendTo,
        KnownFolder::SidebarDefaultParts,
        KnownFolder::SidebarParts,
        KnownFolder::SkyDrive,
        KnownFolder::SkyDriveCameraRoll,
        KnownFolder::SkyDriveDocuments,
        KnownFolder::SkyDriveMusic,
        KnownFolder::SkyDrivePictures,
        KnownFolder::StartMenu,
        KnownFolder::StartMenuAllPrograms,
        KnownFolder::Startup,
        KnownFolder::SyncManagerFolder,
        KnownFolder::SyncResultsFolder,
        KnownFolder::SyncSetupFolder,
        KnownFolder::System,
        KnownFolder::SystemX86,
        KnownFolder::Templates,
        KnownFolder::UserPinned,
        KnownFolder::UserProfiles,
        KnownFolder::UserProgramFiles,
        KnownFolder::UserProgramFilesCommon,
        KnownFolder::UsersFiles,
        KnownFolder::UsersLibraries,
        KnownFolder::Videos,
        KnownFolder::VideosLibrary,
        KnownFolder::Windows,
    ];
    assert_eq!(all.len(), 142);
    for folder in all {
        let g = folder.to_guid();
        let nil = g.data1 == 0 && g.data2 == 0 && g.data3 == 0 && g.data4 == [0u8; 8];
        assert!(!nil);
    }
}

#[test]
fn catalog_identifiers_distinct_up_to_alias() {
    let all: Vec<(&'static str, KnownFolder)> = vec![
        ("AccountPictures", KnownFolder::AccountPictures),
        ("AddNewPrograms", KnownFolder::AddNewPrograms),
        ("AdminTools", KnownFolder::AdminTools),
        ("AllAppMods", KnownFolder::AllAppMods),
        ("AppCaptures", KnownFolder::AppCaptures),
        ("AppDataDesktop", KnownFolder::AppDataDesktop),
        ("AppDataDocuments", KnownFolder::AppDataDocuments),
        ("AppDataFavorites", KnownFolder::AppDataFavorites),
        ("AppDataProgramData", KnownFolder::AppDataProgramData),
        ("AppUpdates", KnownFolder::AppUpdates),
        ("ApplicationShortcuts", KnownFolder::ApplicationShortcuts),
        ("AppsFolder", KnownFolder::AppsFolder),
        ("CDBurning", KnownFolder::CDBurning),
        ("CameraRoll", KnownFolder::CameraRoll),
        ("CameraRollLibrary", KnownFolder::CameraRollLibrary),
        ("ChangeRemovePrograms", KnownFolder::ChangeRemovePrograms),
        ("CommonAdminTools", KnownFolder::CommonAdminTools),
        ("CommonOEMLinks", KnownFolder::CommonOEMLinks),
        ("CommonPrograms", KnownFolder::CommonPrograms),
        ("CommonStartMenu", KnownFolder::CommonStartMenu),
        ("CommonStartMenuPlaces", KnownFolder::CommonStartMenuPlaces),
        ("CommonStartup", KnownFolder::CommonStartup),
        ("CommonTemplates", KnownFolder::CommonTemplates),
        ("ComputerFolder", KnownFolder::ComputerFolder),
        ("ConflictFolder", KnownFolder::ConflictFolder),
        ("ConnectionsFolder", KnownFolder::ConnectionsFolder),
        ("Contacts", KnownFolder::Contacts),
        ("ControlPanelFolder", KnownFolder::ControlPanelFolder),
        ("Cookies", KnownFolder::Cookies),
        ("CurrentAppMods", KnownFolder::CurrentAppMods),
        ("Desktop", KnownFolder::Desktop),
        ("DevelopmentFiles", KnownFolder::DevelopmentFiles),
        ("Device", KnownFolder::Device),
        ("DeviceMetadataStore", KnownFolder::DeviceMetadataStore),
        ("Documents", KnownFolder::Documents),
        ("DocumentsLibrary", KnownFolder::DocumentsLibrary),
        ("Downloads", KnownFolder::Downloads),
        ("Favorites", KnownFolder::Favorites),
        ("Fonts", KnownFolder::Fonts),
        ("GameTasks", KnownFolder::GameTasks),
        ("Games", KnownFolder::Games),
        ("History", KnownFolder::History),
        ("HomeGroup", KnownFolder::HomeGroup),
        ("HomeGroupCurrentUser", KnownFolder::HomeGroupCurrentUser),
        ("ImplicitAppShortcuts", KnownFolder::ImplicitAppShortcuts),
        ("InternetCache", KnownFolder::InternetCache),
        ("InternetFolder", KnownFolder::InternetFolder),
        ("Libraries", KnownFolder::Libraries),
        ("Links", KnownFolder::Links),
        ("LocalAppData", KnownFolder::LocalAppData),
        ("LocalAppDataLow", KnownFolder::LocalAppDataLow),
        ("LocalDocuments", KnownFolder::LocalDocuments),
        ("LocalDownloads", KnownFolder::LocalDownloads),
        ("LocalMusic", KnownFolder::LocalMusic),
        ("LocalPictures", KnownFolder::LocalPictures),
        ("LocalStorage", KnownFolder::LocalStorage),
        ("LocalVideos", KnownFolder::LocalVideos),
        ("LocalizedResourcesDir", KnownFolder::LocalizedResourcesDir),
        ("Music", KnownFolder::Music),
        ("MusicLibrary", KnownFolder::MusicLibrary),
        ("NetHood", KnownFolder::NetHood),
        ("NetworkFolder", KnownFolder::NetworkFolder),
        ("Objects3D", KnownFolder::Objects3D),
        ("OneDrive", KnownFolder::OneDrive),
        ("OriginalImages", KnownFolder::OriginalImages),
        ("PhotoAlbums", KnownFolder::PhotoAlbums),
        ("Pictures", KnownFolder::Pictures),
        ("PicturesLibrary", KnownFolder::PicturesLibrary),
        ("Playlists", KnownFolder::Playlists),
        ("PrintHood", KnownFolder::PrintHood),
        ("PrintersFolder", KnownFolder::PrintersFolder),
        ("Profile", KnownFolder::Profile),
        ("ProgramData", KnownFolder::ProgramData),
        ("ProgramFiles", KnownFolder::ProgramFiles),
        ("ProgramFilesCommon", KnownFolder::ProgramFilesCommon),
        ("ProgramFilesCommonX64", KnownFolder::ProgramFilesCommonX64),
        ("ProgramFilesCommonX86", KnownFolder::ProgramFilesCommonX86),
        ("ProgramFilesX64", KnownFolder::ProgramFilesX64),
        ("ProgramFilesX86", KnownFolder::ProgramFilesX86),
        ("Programs", KnownFolder::Programs),
        ("Public", KnownFolder::Public),
        ("PublicDesktop", KnownFolder::PublicDesktop),
        ("PublicDocuments", KnownFolder::PublicDocuments),
        ("PublicDownloads", KnownFolder::PublicDownloads),
        ("PublicGameTasks", KnownFolder::PublicGameTasks),
        ("PublicLibraries", KnownFolder::PublicLibraries),
        ("PublicMusic", KnownFolder::PublicMusic),
        ("PublicPictures", KnownFolder::PublicPictures),
        ("PublicRingtones", KnownFolder::PublicRingtones),
        ("PublicUserTiles", KnownFolder::PublicUserTiles),
        ("PublicVideos", KnownFolder::PublicVideos),
        ("QuickLaunch", KnownFolder::QuickLaunch),
        ("Recent", KnownFolder::Recent),
        ("RecordedCalls", KnownFolder::RecordedCalls),
        ("RecordedTVLibrary", KnownFolder::RecordedTVLibrary),
        ("RecycleBinFolder", KnownFolder::RecycleBinFolder),
        ("ResourceDir", KnownFolder::ResourceDir),
        ("RetailDemo", KnownFolder::RetailDemo),
        ("Ringtones", KnownFolder::Ringtones),
        ("RoamedTileImages", KnownFolder::RoamedTileImages),
        ("RoamingAppData", KnownFolder::RoamingAppData),
        ("RoamingTiles", KnownFolder::RoamingTiles),
        ("SEARCH_CSC", KnownFolder::SEARCH_CSC),
        ("SEARCH_MAPI", KnownFolder::SEARCH_MAPI),
        ("SampleMusic", KnownFolder::SampleMusic),
        ("SamplePictures", KnownFolder::SamplePictures),
        ("SamplePlaylists", KnownFolder::SamplePlaylists),
        ("SampleVideos", KnownFolder::SampleVideos),
        ("SavedGames", KnownFolder::SavedGames),
        ("SavedPictures", KnownFolder::SavedPictures),
        ("SavedPicturesLibrary", KnownFolder::SavedPicturesLibrary),
        ("SavedSearches", KnownFolder::SavedSearches),
        ("Screenshots", KnownFolder::Screenshots),
        ("SearchHistory", KnownFolder::SearchHistory),
        ("SearchHome", KnownFolder::SearchHome),
        ("SearchTemplates", KnownFolder::SearchTemplates),
        ("SendTo", KnownFolder::SendTo),
        ("SidebarDefaultParts", KnownFolder::SidebarDefaultParts),
        ("SidebarParts", KnownFolder::SidebarParts),
        ("SkyDrive", KnownFolder::SkyDrive),
        ("SkyDriveCameraRoll", KnownFolder::SkyDriveCameraRoll),
        ("SkyDriveDocuments", KnownFolder::SkyDriveDocuments),
        ("SkyDriveMusic", KnownFolder::SkyDriveMusic),
        ("SkyDrivePictures", KnownFolder::SkyDrivePictures),
        ("StartMenu", KnownFolder::StartMenu),
        ("StartMenuAllPrograms", KnownFolder::StartMenuAllPrograms),
        ("Startup", KnownFolder::Startup),
        ("SyncManagerFolder", KnownFolder::SyncManagerFolder),
        ("SyncResultsFolder", KnownFolder::SyncResultsFolder),
        ("SyncSetupFolder", KnownFolder::SyncSetupFolder),
        ("System", KnownFolder::System),
        ("SystemX86", KnownFolder::SystemX86),
        ("Templates", KnownFolder::Templates),
        ("UserPinned", KnownFolder::UserPinned),
        ("UserProfiles", KnownFolder::UserProfiles),
        ("UserProgramFiles", KnownFolder::UserProgramFiles),
        ("UserProgramFilesCommon", KnownFolder::UserProgramFilesCommon),
        ("UsersFiles", KnownFolder::UsersFiles),
        ("UsersLibraries", KnownFolder::UsersLibraries),
        ("Videos", KnownFolder::Videos),
        ("VideosLibrary", KnownFolder::VideosLibrary),
        ("Windows", KnownFolder::Windows),
    ];
    for (i, (name_a, a)) in all.iter().enumerate() {
        for (name_b, b) in all.iter().skip(i + 1) {
            let ga = a.to_guid();
            let gb = b.to_guid();
            let equal = ga.data1 == gb.data1 && ga.data2 == gb.data2 && ga.data3 == gb.data3
                && ga.data4 == gb.data4;
            // The platform keeps one directory under both its current and
            // its former name; no other pair shares an identifier.
            let alias = (*name_a, *name_b) == ("OneDrive", "SkyDrive")
                || (*name_a, *name_b) == ("SkyDrive", "OneDrive");
            assert_eq!(equal, alias, "{name_a} vs {name_b}");
        }
    }
}
