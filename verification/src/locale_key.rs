//! The keys of the texts that the application shows.

use vstd::prelude::*;

verus! {

/// The keys of the texts that the application shows.
#[derive(Clone, Copy, Debug, PartialEq, Eq, Structural)]
pub enum LocaleKey {
    TabGeneral,
    TabProviders,
    TabNotifications,
    TabMenuBar,
    TabMenu,
    TabApiKeys,
    TabCookies,
    TabUsageSpend,
    TabAdvanced,
    TabAbout,
    TabShortcuts,
    InterfaceLanguage,
    StartupSettings,
    StartAtLogin,
    StartMinimized,
    StartAtLoginHelper,
    StartMinimizedHelper,
    ShowNotificationsHelper,
    SoundEnabledHelper,
    HighUsageThresholdHelper,
    CriticalUsageThresholdHelper,
    ShowNotifications,
    SoundEnabled,
    NotificationSoundTheme,
    NotificationSoundThemeHelper,
    NotificationSoundThemeWindows,
    NotificationSoundThemeCodexBar,
    NotificationSoundChooseFile,
    NotificationSoundClearFile,
    NotificationSoundUsesTheme,
    NotificationSoundWaveFile,
    NotificationSoundEventPredictiveWarning,
    NotificationSoundEventPredictiveWarningHelper,
    NotificationSoundEventHighUsage,
    NotificationSoundEventHighUsageHelper,
    NotificationSoundEventCriticalUsage,
    NotificationSoundEventCriticalUsageHelper,
    NotificationSoundEventExhausted,
    NotificationSoundEventExhaustedHelper,
    NotificationSoundEventStatusIssue,
    NotificationSoundEventStatusIssueHelper,
    NotificationSoundEventSessionDepleted,
    NotificationSoundEventSessionDepletedHelper,
    NotificationSoundEventSessionRestored,
    NotificationSoundEventSessionRestoredHelper,
    HighUsageThreshold,
    HighUsageAlert,
    CriticalUsageThreshold,
    CriticalUsageAlert,
    PredictivePaceWarnings,
    PredictivePaceWarningsHelper,
    PredictivePaceWarningTitle,
    PredictivePaceWarningBody,
    UsageDisplay,
    ShowUsageAsUsed,
    ShowUsageAsUsedHelper,
    ResetTimeRelative,
    ResetTimeRelativeHelper,
    ShowResetWhenExhausted,
    ShowResetWhenExhaustedHelper,
    ShowPace,
    ShowPaceHelper,
    TrayIcon,
    MergeTrayIcons,
    MergeTrayIconsHelper,
    PerProviderTrayIcons,
    PerProviderTrayIconsHelper,
    ProviderEnabled,
    ProviderDisabled,
    ProviderInfo,
    ProviderUsage,
    PanelUsageDetails,
    AuthType,
    DataSource,
    ProviderNotDetected,
    ProviderLastFetchFailed,
    ProviderUsageNotFetchedYet,
    ProviderNotFetchedYetTitle,
    ProviderDisabledNoRecentData,
    ProviderSourceAutoShort,
    ProviderSourceWebShort,
    ProviderSourceCliShort,
    ProviderSourceOauthShort,
    ProviderSourceApiShort,
    ProviderSourceGithubApiShort,
    ProviderSourceLocalShort,
    ProviderSourceKiroEnvShort,
    WayfinderGatewayTitle,
    WayfinderGatewayLabel,
    WayfinderGatewayHelp,
    WayfinderGatewayStatus,
    WayfinderModels,
    WayfinderRequests,
    WayfinderTokens,
    WayfinderSaved,
    WayfinderOffline,
    WayfinderDryRun,
    WayfinderMissingKeys,
    TrackingItem,
    MainWindowLiveUsageData,
    StartTrackingUsage,
    ClickTrayIconForMetrics,
    BrowserCookieImport,
    ImportFromBrowser,
    NoCookiesFoundInBrowser,
    SelectBrowser,
    ImportCookies,
    ImportSuccess,
    ImportFailed,
    SaveFailed,
    CookiesAutoImport,
    QuickActions,
    OpenProviderDashboard,
    OllamaNoDashboard,
    ApiKeysTitle,
    ApiKeysDescription,
    AddKey,
    KeySet,
    KeyRequired,
    Remove,
    GetKey,
    SavedCookies,
    AddManualCookie,
    CookieHeader,
    PasteHere,
    DeleteCookie,
    CookieSaved,
    CookieDeleted,
    RefreshSettings,
    Animations,
    MenuBar,
    Fun,
    GlobalShortcut,
    Privacy,
    Updates,
    UpdateChannel,
    UpdateChannelStable,
    UpdateChannelBeta,
    Never,
    LastUpdated,
    NeverUpdated,
    MinutesAgo,
    HoursAgo,
    DaysAgo,
    BuiltWithRust,
    OriginalMacOSVersion,
    Links,
    BuildInfo,
    EnabledProviders,
    Appearance,
    ThemeSelection,
    LightMode,
    DarkMode,
    AboutTitle,
    Version,
    ActionRefreshAll,
    ActionSettings,
    ActionClose,
    ProviderAccount,
    ProviderSession,
    ProviderWeekly,
    ProviderMonthly,
    DeepSeekPricingTitle,
    DeepSeekPricingStandard,
    DeepSeekPricingPeak,
    DeepSeekPricingOffPeak,
    DeepSeekPricingCurrent,
    DeepSeekPricingNext,
    DeepSeekPricingEffective,
    DeepSeekPricingAdvice,
    ProviderModel,
    ProviderPlan,
    ProviderNextReset,
    ProviderNoRecentUsage,
    ProviderNotSignedIn,
    SummaryTab,
    StateLoadingProviders,
    StateNoProviderData,
    StateNoProviderSelected,
    StateSummaryRefreshPending,
    StateError,
    StateRetry,
    StateDownload,
    StateRestartAndUpdate,
    CreditsTitle,
    UpdateRestartAndUpdate,
    UpdateRetry,
    UpdateDownload,
    UpdateDownloading,
    UpdateReady,
    UpdateFailed,
    ButtonOpenProviderSettings,
    MenuSettings,
    MenuAbout,
    MenuQuit,
    StatusJustUpdated,
    StatusUnableToGetUsage,
    ActionRefresh,
    ActionSwitchAccount,
    ActionUsageDashboard,
    ActionStatusPage,
    ActionCopyError,
    ActionBuyCredits,
    PaceOnTrack,
    PaceBehind,
    MetricResetsIn,
    SectionUsageBreakdown,
    SectionCost,
    ResetInProgress,
    TomorrowAt,
    UsedPercent,
    RemainingPercent,
    RemainingAmount,
    Tokens1K,
    TodayCost,
    Last30DaysCost,
    StatusLabel,
    TrayOpenCodexBar,
    TrayPopOutDashboard,
    TrayShowWindow,
    TrayShowFloatBar,
    TrayRefreshAll,
    TrayProviders,
    TraySettings,
    TrayCheckForUpdates,
    TrayQuit,
    TrayLoading,
    TrayNoProviders,
    TraySessionPercent,
    TrayWeeklyPercent,
    TrayStatusError,
    TrayStatusStale,
    TrayStatusIncident,
    TrayStatusPartial,
    TrayWeeklyExhausted,
    TrayCreditsRemaining,
    TrayStatusRowLoading,
    TrayStatusRowError,
    TrayCreditsRow,
    TrayProviderPopOut,
    TrayProviderRefresh,
    TrayProviderSettings,
    TrayProviderQuit,
    State,
    Source,
    Updated,
    UpdatedJustNow,
    UpdatedMinutesAgo,
    UpdatedHoursAgo,
    UpdatedDaysAgo,
    Status,
    AllSystemsOperational,
    Plan,
    Account,
    ProviderSessionLabel,
    ProviderWeeklyLabel,
    ProviderCodeReviewLabel,
    ResetsInShort,
    ResetsInDaysHours,
    ResetsInHoursMinutes,
    ResetsInMinutes,
    NextExpiresInDaysHours,
    NextExpiresInHoursMinutes,
    NextExpiresInMinutes,
    NextExpiresDueNow,
    TrayDisplayTitle,
    ShowInTray,
    CreditsLabel,
    CreditsLeft,
    CostTitle,
    TodayCostFull,
    Last30DaysCostFull,
    ProviderSettingsTitle,
    ProviderAccountsTitle,
    ProviderOptionsTitle,
    MenuBarMetric,
    MenuBarMetricHelper,
    UsageSource,
    ProviderNoCodexAccountsDetected,
    ProviderCodexAutoImportHelp,
    ProviderCodexHistoryHelp,
    ProviderOpenAiCookies,
    ProviderHistoricalTracking,
    ProviderOpenAiWebExtras,
    ProviderOpenAiWebExtrasHelp,
    ProviderCodexCreditsUnavailable,
    ProviderCodexLastFetchFailedTitle,
    ProviderCodexNotRunningHelp,
    ProviderCookieSource,
    CookieSourceManual,
    ProviderRegion,
    ProviderClaudeCookies,
    ProviderClaudeCookiesHelp,
    ProviderClaudeAvoidKeychainPrompts,
    ProviderClaudeAvoidKeychainPromptsHelp,
    ProviderClaudeDailyRoutinesUsage,
    ProviderClaudeDailyRoutinesUsageHelp,
    ProviderClaudeAllowReadingClaudeCodeCredentials,
    ProviderClaudeAllowReadingClaudeCodeCredentialsHelp,
    ProviderCodexSparkUsage,
    ProviderCodexSparkUsageHelp,
    CodexAccountsTitle,
    ClaudeAccountsTitle,
    ClaudeAccountsHint,
    ClaudeAccountsEmpty,
    ClaudeAccountsSaveCurrent,
    ClaudeAccountsCancelLogin,
    ClaudeAccountsSigningIn,
    ClaudeAccountsSwitched,
    ClaudeAccountsAdded,
    CodexAccountsHint,
    CodexAccountsAddButton,
    CodexAccountsSwitchButton,
    CodexAccountsFetchButton,
    CodexAccountsRemoveButton,
    CodexAccountsEmpty,
    CodexAccountsSourceAmbient,
    CodexAccountsSourceManaged,
    CodexAccountsUsageUnavailable,
    CodexSwitchSuccess,
    CodexSwitchRestartPrompt,
    CodexAccountsRestartDesktop,
    ProviderCursorCookieSourceHelp,
    ProviderCursorCreditsHelp,
    AutoFallbackHelp,
    ProviderSourceOauthWeb,
    Automatic,
    Average,
    ExtraUsage,
    OAuth,
    Api,
    Web,
    PrivacyTitle,
    HidePersonalInfo,
    HidePersonalInfoHelper,
    SectionLocalIntegrations,
    PowerToysPipeLabel,
    PowerToysPipeHelper,
    HooksTitle,
    HooksCaption,
    HooksEnableLabel,
    HooksEnableHelper,
    HooksConfigPathHint,
    NetworkProxyTitle,
    NetworkProxyCaption,
    NetworkProxyEnableLabel,
    NetworkProxyEnableHelper,
    NetworkProxyUrlLabel,
    NetworkProxyUrlHelper,
    NetworkProxyUserLabel,
    NetworkProxyPasswordLabel,
    NetworkProxyPasswordHelper,
    NetworkProxyInvalidUrl,
    UsageSpendTitle,
    UsageSpendCaption,
    UsageSpendModels,
    UsageSpendAllTime,
    UsageSpendOpenCodexImport,
    UsageSpendHideNativeCodex,
    UsageSpendSpend,
    UsageSpendPriceCoverage,
    UsageSpendConversations,
    UsageSpendTokenMix,
    UsageSpendKnownZero,
    UsageSpendApiEstimate,
    UsageSpendVendorMetered,
    UsageSpendMixedSources,
    UsageSpendUnknown,
    UsageSpendUnpriced,
    UsageSpendHistoryCovered,
    UsageSpendPartialHistory,
    UsageSpendCustomPricingActive,
    UsageSpendDefaultPricing,
    UsageSpendHourlyActivity,
    UsageSpendRequests,
    UsageSpendTokens,
    UsageSpendAllTimeHistory,
    UsageSpendCustomPricing,
    OverviewSpendTitle,
    OverviewSpendProviderCoverage,
    OverviewSpendEstimate,
    UsageSpendProjects,
    UsageSpendShowAll,
    UsageSpendShowLess,
    UsageSpendNoModels,
    UsageSpendNoProjects,
    UsageSpendRefresh,
    UsageSpendLoading,
    UsageSpendRefreshing,
    UsageSpendEmpty,
    UsageSpendColProvider,
    UsageSpendCol7d,
    UsageSpendCol30d,
    UsageSpendColCurrency,
    UsageSpendColSource,
    UsageSpendShare,
    UsageSpendCopyJson,
    UsageSpendSaveJson,
    UsageSpendShareEmpty,
    UsageSpendShareFailed,
    AgentSessionsTitle,
    AgentSessionsEnableLabel,
    AgentSessionsEnableHelper,
    AgentSessionsSshHostsLabel,
    AgentSessionsSshHostsHelper,
    AgentSessionsLoading,
    AgentSessionsEmpty,
    UpdatesTitle,
    UpdateChannelChoice,
    UpdateChannelChoiceHelper,
    AutoDownloadUpdates,
    AutoDownloadUpdatesHelper,
    InstallUpdatesOnQuit,
    InstallUpdatesOnQuitHelper,
    KeyboardShortcutsTitle,
    GlobalShortcutLabel,
    GlobalShortcutHelper,
    ShortcutFormatHint,
    Saved,
    InvalidFormat,
    ShortcutHintPlaceholder,
    SelectProvider,
    RefreshInterval30Sec,
    RefreshInterval1Min,
    RefreshInterval5Min,
    RefreshInterval10Min,
    BrowserCookiesTitle,
    CookieImport,
    Provider,
    SelectPlaceholder,
    AutoRefreshInterval,
    AboutDescription,
    AboutDescriptionLine2,
    ViewOnGitHub,
    SubmitIssue,
    MaintainedBy,
    CommitLabel,
    BuildDateLabel,
    Save,
    Cancel,
    Label,
    Token,
    AddAccount,
    AccountAdded,
    AccountRemoved,
    AccountSwitched,
    AccountLabelHint,
    EnterApiKeyFor,
    PasteApiKeyHere,
    ApiKeySaved,
    ApiKeyRemoved,
    EnvironmentVariable,
    CookieSavedForProvider,
    CookieRemovedForProvider,
    ShowUsedPercent,
    ShowRemainingPercent,
    UpdateAvailableMessage,
    UpdateReadyMessage,
    UpdateFailedMessage,
    UpdateDownloadingMessage,
    TabTokenAccounts,
    SectionRefresh,
    SectionNotifications,
    SectionUsageThresholds,
    SectionKeyboard,
    SectionUsageRendering,
    SectionTime,
    SectionLanguage,
    SectionCredentialsSecurity,
    SectionDebug,
    SectionApiKeys,
    SectionSavedCookies,
    SectionImportFromBrowser,
    SectionAddCookieManually,
    SectionTokenAccounts,
    SectionSavedAccounts,
    SectionAddAccount,
    RefreshIntervalLabel,
    RefreshIntervalHelper,
    RefreshAllProvidersOnMenuOpen,
    RefreshAllProvidersOnMenuOpenHelper,
    LowPowerMode,
    LowPowerModeHelper,
    LowPowerModeOff,
    LowPowerModeOn,
    LowPowerModeAutomatic,
    HighUsageWarningHelper,
    CriticalUsageWarningHelper,
    GlobalShortcutFieldLabel,
    GlobalShortcutToggleHelper,
    ShortcutRecordButton,
    ShortcutRecordingLabel,
    ShortcutRecordingHint,
    ShortcutClearButton,
    ShortcutEmptyPlaceholder,
    NotificationTestSound,
    NotificationTestSoundPlaying,
    TrayIconModeLabel,
    TrayIconModeHelper,
    TrayIconModeSingle,
    TrayIconModePerProvider,
    ShowProviderIcons,
    ShowProviderIconsHelper,
    PreferHighestUsage,
    PreferHighestUsageHelper,
    ShowPercentInTray,
    ShowPercentInTrayHelper,
    DisplayModeLabel,
    DisplayModeHelper,
    DisplayModeDetailed,
    DisplayModeCompact,
    DisplayModeMinimal,
    WindowScaleLabel,
    WindowScaleHelper,
    WindowScaleAriaLabel,
    WindowMinimize,
    WindowMaximize,
    WindowRestore,
    WindowClose,
    ShowAsUsedLabel,
    ShowAsUsedHelper,
    ShowAllTokenAccountsLabel,
    ShowAllTokenAccountsHelper,
    EnableAnimationsLabel,
    EnableAnimationsHelper,
    UpdateChannelStableOption,
    UpdateChannelBetaOption,
    CodexLocalLogsTitle,
    CodexLocalLogsCaption,
    CodexLogPathsLabel,
    CodexLogPathsHelper,
    AvoidKeychainPromptsLabel,
    AvoidKeychainPromptsHelper,
    DisableAllKeychainLabel,
    DisableAllKeychainHelper,
    SectionTheme,
    ThemeLabel,
    ThemeHelper,
    ThemeAutoOption,
    ThemeLightOption,
    ThemeDarkOption,
    SettingsStatusSaving,
    ApiKeysTabHint,
    FetchingProviderData,
    NoProvidersConfigured,
    EnableProvidersHint,
    OpenSettingsButton,
    TooltipRefresh,
    TooltipSettings,
    TooltipPopOut,
    TooltipBackToTray,
    TrayCardErrorBadge,
    SummaryProvidersLabel,
    SummaryRefreshing,
    SummaryFailed,
    SummaryWithErrors,
    DetailBackButton,
    DetailWindowPrimary,
    DetailWindowSecondary,
    DetailWindowModelSpecific,
    DetailWindowTertiary,
    DetailWindowMinutesSuffix,
    DetailWindowExhausted,
    DetailPaceTitle,
    DetailPaceOnTrack,
    DetailPaceSlightlyAhead,
    DetailPaceAhead,
    DetailPaceFarAhead,
    DetailPaceSlightlyBehind,
    DetailPaceBehind,
    DetailPaceFarBehind,
    DetailPaceRunsOutIn,
    DetailPaceWillLastToReset,
    DetailCostTitle,
    DetailCostUsed,
    DetailCostLimit,
    DetailCostRemaining,
    DetailCostBalance,
    DetailCostResets,
    DetailChartCost,
    DetailChartTokens,
    DetailChartRefreshing,
    DetailChartCredits,
    DetailChartUsageBreakdown,
    DetailChartEmpty,
    DetailUpdatedPrefix,
    PanelAllProviders,
    PanelAllProvidersShort,
    PanelShowAllProviders,
    PanelShowFewerProviders,
    PanelZoom,
    PanelMenu,
    PanelCopied,
    PanelToday,
    PanelThirtyDayCost,
    PanelThirtyDayTokens,
    PanelLatestTokens,
    PanelThirtyDayCostHistogram,
    PanelTopModelPrefix,
    PanelEstimatedFromLocalLogs,
    PanelEstimatedFromLocalLogsClaude,
    PanelExpected,
    PanelActual,
    PanelUsedSuffix,
    PanelLeftSuffix,
    PanelOnPaceBudget,
    PanelNow,
    PanelOneHour,
    PanelFiveHours,
    PanelTodayBudget,
    PanelReserveSuffix,
    PanelReserveLastsUntilReset,
    PanelReserveRunsOutInDaysHours,
    PanelReserveRunsOutInHours,
    FloatBarThirtyDayShort,
    FloatBarNoProviders,
    FloatBarRemainingSuffix,
    FloatBarShowCost,
    FloatBarShowCostDescription,
    BannerCheckingForUpdates,
    BannerUpdateAvailablePrefix,
    BannerDownloadButton,
    BannerViewRelease,
    BannerDismiss,
    BannerDownloadingPrefix,
    BannerReadyToInstallSuffix,
    BannerInstallRestart,
    BannerUpdateFailedPrefix,
    BannerRetry,
    ProviderSidebarSearch,
    ProviderSidebarClearSearch,
    ProviderSidebarNoMatches,
    ProviderSidebarReorderHint,
    ProviderSidebarMoveUp,
    ProviderSidebarMoveDown,
    ProviderStatusOk,
    ProviderStatusStale,
    ProviderStatusError,
    ProviderStatusLoading,
    ProviderStatusDisabled,
    ProviderDetailPlaceholder,
    ProviderIssueNeedsSignIn,
    ProviderIssueFetchNeedsAttention,
    ProviderIssueCopy,
    ProviderIssueUnsupportedSourceModePrefix,
    ProviderIssueAuthRequired,
    ProviderIssueSessionExpired,
    ProviderIssueLocalRuntimeOffline,
    ProviderIssueUnknown,
    ProviderIssuePrivacySafeDetail,
    CredentialStorageTitle,
    CredentialRevokeStored,
    CredentialApiKeys,
    CredentialManualCookies,
    CredentialTokenAccounts,
    CredentialProtectedPrefix,
    CredentialStatusNotCreated,
    CredentialStatusPlaintext,
    CredentialStatusUnavailable,
    CredentialStatusUnreadable,
    BrowserCookiesSectionTitle,
    BrowserCookieNoneSaved,
    BrowserCookieSavedBadge,
    BrowserCookieRemove,
    BrowserCookieImportSuccess,
    BrowserCookieImportFromBrowser,
    BrowserCookieProfileSingular,
    BrowserCookieProfilePlural,
    BrowserCookiePlaceholderDefault,
    BrowserCookiePlaceholderOllama,
    BrowserCookiePlaceholderCurl,
    BrowserCookieSave,
    CredentialsSectionTitle,
    CredsStatusAuthenticated,
    CredsStatusNotSignedIn,
    CredsStatusDetected,
    CredsStatusNotDetected,
    CredsStatusAvailable,
    CredsStatusUnavailable,
    CredsOpenFolderAction,
    CredsRefreshDetectionAction,
    CredsSavePathAction,
    CredsBrowseAction,
    CredsGeminiCliLabel,
    CredsGeminiCliHelperPrefix,
    CredsGeminiCliSetupAction,
    CredsGeminiCliSetupHelp,
    CredsVertexAiLabel,
    CredsVertexAiHelperPrefix,
    CredsVertexAiSetupAction,
    CredsVertexAiSetupHelp,
    CredsJetBrainsLabel,
    CredsJetBrainsHelperDetectedPrefix,
    CredsJetBrainsHelperCustomPrefix,
    CredsJetBrainsHelperMissing,
    CredsJetBrainsCustomPathLabel,
    CredsJetBrainsCustomPathPlaceholder,
    CredsJetBrainsSelectLabel,
    CredsJetBrainsAutoDetectOption,
    CredsKiroLabel,
    CredsKiroHelperAvailablePrefix,
    CredsKiroHelperMissing,
    OpenCodeGoWorkspaceTitle,
    OpenCodeGoWorkspaceLabel,
    OpenCodeGoWorkspaceHelp,
    OpenRouterManagementKeyTitle,
    OpenRouterManagementKeyLabel,
    OpenRouterManagementKeyHelp,
    OpenRouterManagementKeyConfigured,
    CredsOpenAiHistoryHelp,
    TokenAccountActive,
    TokenAccountSetActive,
    TokenAccountRemove,
    TokenAccountAddButton,
    TokenAccountGithubLoginButton,
    TokenAccountEmpty,
    TokenAccountLabelPlaceholder,
    TokenAccountProviderLabel,
    TokenAccountProviderPlaceholder,
    TokenAccountAddedPrefix,
    TokenAccountUsedPrefix,
    TokenAccountTabHint,
    TokenAccountNoSupported,
    TokenAccountInlineSummary,
    TrayPaceBadgeSlow,
    TrayPaceBadgeSteady,
    TrayPaceBadgeRacing,
    TrayPaceBadgeBurning,
    TrayResetsInLabel,
    TrayResetsDueNow,
    FloatBarSectionTitle,
    FloatBarShowFloatingBar,
    FloatBarShowFloatingBarHelper,
    FloatBarOrientation,
    FloatBarOrientationHelper,
    FloatBarOrientationHorizontal,
    FloatBarOrientationVertical,
    FloatBarStyle,
    FloatBarStyleHelper,
    FloatBarStyleFloating,
    FloatBarStyleTaskbar,
    FloatBarOpacity,
    FloatBarOpacityHelper,
    FloatBarOpacityAriaLabel,
    FloatBarSize,
    FloatBarSizeHelper,
    FloatBarSizeAriaLabel,
    FloatBarShowResetInline,
    FloatBarShowResetInlineHelper,
    FloatBarInvertColors,
    FloatBarInvertColorsHelper,
    FloatBarClickThrough,
    FloatBarClickThroughHelper,
    AppName,
    SettingsWindowTitle,
    ErrorPrefix,
    AboutLoading,
    AboutCheckForUpdates,
    AboutChecking,
    AboutUpToDate,
    AboutCopyrightBefore,
    AboutCopyrightAfter,
    AboutLinkGitHub,
    AboutLinkWebsite,
    AboutLinkOriginalProject,
    DiagnosticsSectionHeading,
    DiagnosticsCopyButton,
    DiagnosticsCopied,
    DiagnosticsCopyFailed,
    SavedCookiesHint,
    ImportFromBrowserHint,
    NoBrowsersDetectedHint,
    CookieHeaderValuePlaceholder,
    ApiKeyTitle,
    ApiKeyNotSet,
    ApiKeyUpdate,
    ApiKeyLabelOptional,
    BootstrapFailed,
    LoadingShellContract,
    LoadingShellContractHint,
    RefreshIntervalManual,
    RefreshIntervalAdaptive,
    RefreshInterval15Min,
    RefreshInterval30Min,
    RefreshInterval1Hour,
    ProviderNameCodex,
    ProviderNameClaude,
    AgentSessionsProviderPi,
    AgentSessionsProviderOmp,
    ProvidersAriaLabel,
    WaitingForUsage,
    TokenAccountTokenPlaceholder,
    ProviderPlanClaudeAi,
    PaceChartAriaLabel,
    PaceChartLegendAverageSoFar,
    PaceChartLegendIdealPace,
    PaceChartLegendProjection,
    BarChartAriaLabel,
    StackedBarChartAriaLabel,
    OpenAiAdminApiTitle,
    OpenAiProjectIdLabel,
    OpenAiProjectIdPlaceholder,
    OpenAiProjectIdHelp,
    LiteLlmApiTitle,
    LiteLlmBaseUrlLabel,
    LiteLlmBaseUrlPlaceholder,
    LiteLlmBaseUrlHelp,
    DevinApiTitle,
    DevinOrganizationLabel,
    DevinOrganizationPlaceholder,
    DevinOrganizationHelp,
    ZedApiTitle,
    ZedApiUrlLabel,
    ZedApiUrlPlaceholder,
    ZedApiUrlHelp,
    Sub2ApiTitle,
    Sub2ApiBaseUrlLabel,
    Sub2ApiBaseUrlPlaceholder,
    Sub2ApiBaseUrlHelp,
    PromoteTrayIconLabel,
    PromoteTrayIconHelper,
    PromoteTrayIconUnsupportedHint,
    MistralMonthlySpend,
    MistralMonthlySpendHelper,
    CostSummaryDisplayStyle,
    CostSummaryDisplayStyleHelper,
    CostSummaryStyleCompact,
    CostSummaryStyleDetailed,
    CostSummaryStyleHidden,
    ProviderAccentColor,
    ProviderAccentColorHelper,
    ProviderAccentColorReset,
    ProviderAccentColorInvalid,
}

impl LocaleKey {
    /// The name under which a text is looked up.
    pub open spec fn label(self) -> Seq<char> {
        self.entry_from_0().1
    }

    /// The place of the key among all keys.
    pub open spec fn place(self) -> int {
        self.entry_from_0().0
    }

    /// The place and the name of a key at place 0 or beyond.
    pub open spec fn entry_from_0(self) -> (int, Seq<char>) {
        match self {
            LocaleKey::TabGeneral => (0, "TabGeneral"@),
            LocaleKey::TabProviders => (1, "TabProviders"@),
            LocaleKey::TabNotifications => (2, "TabNotifications"@),
            LocaleKey::TabMenuBar => (3, "TabMenuBar"@),
            LocaleKey::TabMenu => (4, "TabMenu"@),
            LocaleKey::TabApiKeys => (5, "TabApiKeys"@),
            LocaleKey::TabCookies => (6, "TabCookies"@),
            LocaleKey::TabUsageSpend => (7, "TabUsageSpend"@),
            LocaleKey::TabAdvanced => (8, "TabAdvanced"@),
            LocaleKey::TabAbout => (9, "TabAbout"@),
            LocaleKey::TabShortcuts => (10, "TabShortcuts"@),
            LocaleKey::InterfaceLanguage => (11, "InterfaceLanguage"@),
            LocaleKey::StartupSettings => (12, "StartupSettings"@),
            LocaleKey::StartAtLogin => (13, "StartAtLogin"@),
            LocaleKey::StartMinimized => (14, "StartMinimized"@),
            LocaleKey::StartAtLoginHelper => (15, "StartAtLoginHelper"@),
            LocaleKey::StartMinimizedHelper => (16, "StartMinimizedHelper"@),
            LocaleKey::ShowNotificationsHelper => (17, "ShowNotificationsHelper"@),
            LocaleKey::SoundEnabledHelper => (18, "SoundEnabledHelper"@),
            LocaleKey::HighUsageThresholdHelper => (19, "HighUsageThresholdHelper"@),
            LocaleKey::CriticalUsageThresholdHelper => (20, "CriticalUsageThresholdHelper"@),
            LocaleKey::ShowNotifications => (21, "ShowNotifications"@),
            LocaleKey::SoundEnabled => (22, "SoundEnabled"@),
            LocaleKey::NotificationSoundTheme => (23, "NotificationSoundTheme"@),
            LocaleKey::NotificationSoundThemeHelper => (24, "NotificationSoundThemeHelper"@),
            LocaleKey::NotificationSoundThemeWindows => (25, "NotificationSoundThemeWindows"@),
            LocaleKey::NotificationSoundThemeCodexBar => (26, "NotificationSoundThemeCodexBar"@),
            LocaleKey::NotificationSoundChooseFile => (27, "NotificationSoundChooseFile"@),
            LocaleKey::NotificationSoundClearFile => (28, "NotificationSoundClearFile"@),
            LocaleKey::NotificationSoundUsesTheme => (29, "NotificationSoundUsesTheme"@),
            LocaleKey::NotificationSoundWaveFile => (30, "NotificationSoundWaveFile"@),
            LocaleKey::NotificationSoundEventPredictiveWarning => (31, "NotificationSoundEventPredictiveWarning"@),
            LocaleKey::NotificationSoundEventPredictiveWarningHelper => (32, "NotificationSoundEventPredictiveWarningHelper"@),
            LocaleKey::NotificationSoundEventHighUsage => (33, "NotificationSoundEventHighUsage"@),
            LocaleKey::NotificationSoundEventHighUsageHelper => (34, "NotificationSoundEventHighUsageHelper"@),
            LocaleKey::NotificationSoundEventCriticalUsage => (35, "NotificationSoundEventCriticalUsage"@),
            LocaleKey::NotificationSoundEventCriticalUsageHelper => (36, "NotificationSoundEventCriticalUsageHelper"@),
            LocaleKey::NotificationSoundEventExhausted => (37, "NotificationSoundEventExhausted"@),
            LocaleKey::NotificationSoundEventExhaustedHelper => (38, "NotificationSoundEventExhaustedHelper"@),
            LocaleKey::NotificationSoundEventStatusIssue => (39, "NotificationSoundEventStatusIssue"@),
            LocaleKey::NotificationSoundEventStatusIssueHelper => (40, "NotificationSoundEventStatusIssueHelper"@),
            LocaleKey::NotificationSoundEventSessionDepleted => (41, "NotificationSoundEventSessionDepleted"@),
            LocaleKey::NotificationSoundEventSessionDepletedHelper => (42, "NotificationSoundEventSessionDepletedHelper"@),
            LocaleKey::NotificationSoundEventSessionRestored => (43, "NotificationSoundEventSessionRestored"@),
            LocaleKey::NotificationSoundEventSessionRestoredHelper => (44, "NotificationSoundEventSessionRestoredHelper"@),
            LocaleKey::HighUsageThreshold => (45, "HighUsageThreshold"@),
            LocaleKey::HighUsageAlert => (46, "HighUsageAlert"@),
            LocaleKey::CriticalUsageThreshold => (47, "CriticalUsageThreshold"@),
            LocaleKey::CriticalUsageAlert => (48, "CriticalUsageAlert"@),
            LocaleKey::PredictivePaceWarnings => (49, "PredictivePaceWarnings"@),
            LocaleKey::PredictivePaceWarningsHelper => (50, "PredictivePaceWarningsHelper"@),
            LocaleKey::PredictivePaceWarningTitle => (51, "PredictivePaceWarningTitle"@),
            LocaleKey::PredictivePaceWarningBody => (52, "PredictivePaceWarningBody"@),
            LocaleKey::UsageDisplay => (53, "UsageDisplay"@),
            LocaleKey::ShowUsageAsUsed => (54, "ShowUsageAsUsed"@),
            LocaleKey::ShowUsageAsUsedHelper => (55, "ShowUsageAsUsedHelper"@),
            LocaleKey::ResetTimeRelative => (56, "ResetTimeRelative"@),
            LocaleKey::ResetTimeRelativeHelper => (57, "ResetTimeRelativeHelper"@),
            LocaleKey::ShowResetWhenExhausted => (58, "ShowResetWhenExhausted"@),
            LocaleKey::ShowResetWhenExhaustedHelper => (59, "ShowResetWhenExhaustedHelper"@),
            LocaleKey::ShowPace => (60, "ShowPace"@),
            LocaleKey::ShowPaceHelper => (61, "ShowPaceHelper"@),
            LocaleKey::TrayIcon => (62, "TrayIcon"@),
            LocaleKey::MergeTrayIcons => (63, "MergeTrayIcons"@),
            _ => self.entry_from_64(),
        }
    }

    /// The place and the name of a key at place 64 or beyond.
    pub open spec fn entry_from_64(self) -> (int, Seq<char>) {
        match self {
            LocaleKey::MergeTrayIconsHelper => (64, "MergeTrayIconsHelper"@),
            LocaleKey::PerProviderTrayIcons => (65, "PerProviderTrayIcons"@),
            LocaleKey::PerProviderTrayIconsHelper => (66, "PerProviderTrayIconsHelper"@),
            LocaleKey::ProviderEnabled => (67, "ProviderEnabled"@),
            LocaleKey::ProviderDisabled => (68, "ProviderDisabled"@),
            LocaleKey::ProviderInfo => (69, "ProviderInfo"@),
            LocaleKey::ProviderUsage => (70, "ProviderUsage"@),
            LocaleKey::PanelUsageDetails => (71, "PanelUsageDetails"@),
            LocaleKey::AuthType => (72, "AuthType"@),
            LocaleKey::DataSource => (73, "DataSource"@),
            LocaleKey::ProviderNotDetected => (74, "ProviderNotDetected"@),
            LocaleKey::ProviderLastFetchFailed => (75, "ProviderLastFetchFailed"@),
            LocaleKey::ProviderUsageNotFetchedYet => (76, "ProviderUsageNotFetchedYet"@),
            LocaleKey::ProviderNotFetchedYetTitle => (77, "ProviderNotFetchedYetTitle"@),
            LocaleKey::ProviderDisabledNoRecentData => (78, "ProviderDisabledNoRecentData"@),
            LocaleKey::ProviderSourceAutoShort => (79, "ProviderSourceAutoShort"@),
            LocaleKey::ProviderSourceWebShort => (80, "ProviderSourceWebShort"@),
            LocaleKey::ProviderSourceCliShort => (81, "ProviderSourceCliShort"@),
            LocaleKey::ProviderSourceOauthShort => (82, "ProviderSourceOauthShort"@),
            LocaleKey::ProviderSourceApiShort => (83, "ProviderSourceApiShort"@),
            LocaleKey::ProviderSourceGithubApiShort => (84, "ProviderSourceGithubApiShort"@),
            LocaleKey::ProviderSourceLocalShort => (85, "ProviderSourceLocalShort"@),
            LocaleKey::ProviderSourceKiroEnvShort => (86, "ProviderSourceKiroEnvShort"@),
            LocaleKey::WayfinderGatewayTitle => (87, "WayfinderGatewayTitle"@),
            LocaleKey::WayfinderGatewayLabel => (88, "WayfinderGatewayLabel"@),
            LocaleKey::WayfinderGatewayHelp => (89, "WayfinderGatewayHelp"@),
            LocaleKey::WayfinderGatewayStatus => (90, "WayfinderGatewayStatus"@),
            LocaleKey::WayfinderModels => (91, "WayfinderModels"@),
            LocaleKey::WayfinderRequests => (92, "WayfinderRequests"@),
            LocaleKey::WayfinderTokens => (93, "WayfinderTokens"@),
            LocaleKey::WayfinderSaved => (94, "WayfinderSaved"@),
            LocaleKey::WayfinderOffline => (95, "WayfinderOffline"@),
            LocaleKey::WayfinderDryRun => (96, "WayfinderDryRun"@),
            LocaleKey::WayfinderMissingKeys => (97, "WayfinderMissingKeys"@),
            LocaleKey::TrackingItem => (98, "TrackingItem"@),
            LocaleKey::MainWindowLiveUsageData => (99, "MainWindowLiveUsageData"@),
            LocaleKey::StartTrackingUsage => (100, "StartTrackingUsage"@),
            LocaleKey::ClickTrayIconForMetrics => (101, "ClickTrayIconForMetrics"@),
            LocaleKey::BrowserCookieImport => (102, "BrowserCookieImport"@),
            LocaleKey::ImportFromBrowser => (103, "ImportFromBrowser"@),
            LocaleKey::NoCookiesFoundInBrowser => (104, "NoCookiesFoundInBrowser"@),
            LocaleKey::SelectBrowser => (105, "SelectBrowser"@),
            LocaleKey::ImportCookies => (106, "ImportCookies"@),
            LocaleKey::ImportSuccess => (107, "ImportSuccess"@),
            LocaleKey::ImportFailed => (108, "ImportFailed"@),
            LocaleKey::SaveFailed => (109, "SaveFailed"@),
            LocaleKey::CookiesAutoImport => (110, "CookiesAutoImport"@),
            LocaleKey::QuickActions => (111, "QuickActions"@),
            LocaleKey::OpenProviderDashboard => (112, "OpenProviderDashboard"@),
            LocaleKey::OllamaNoDashboard => (113, "OllamaNoDashboard"@),
            LocaleKey::ApiKeysTitle => (114, "ApiKeysTitle"@),
            LocaleKey::ApiKeysDescription => (115, "ApiKeysDescription"@),
            LocaleKey::AddKey => (116, "AddKey"@),
            LocaleKey::KeySet => (117, "KeySet"@),
            LocaleKey::KeyRequired => (118, "KeyRequired"@),
            LocaleKey::Remove => (119, "Remove"@),
            LocaleKey::GetKey => (120, "GetKey"@),
            LocaleKey::SavedCookies => (121, "SavedCookies"@),
            LocaleKey::AddManualCookie => (122, "AddManualCookie"@),
            LocaleKey::CookieHeader => (123, "CookieHeader"@),
            LocaleKey::PasteHere => (124, "PasteHere"@),
            LocaleKey::DeleteCookie => (125, "DeleteCookie"@),
            LocaleKey::CookieSaved => (126, "CookieSaved"@),
            LocaleKey::CookieDeleted => (127, "CookieDeleted"@),
            _ => self.entry_from_128(),
        }
    }

    /// The place and the name of a key at place 128 or beyond.
    pub open spec fn entry_from_128(self) -> (int, Seq<char>) {
        match self {
            LocaleKey::RefreshSettings => (128, "RefreshSettings"@),
            LocaleKey::Animations => (129, "Animations"@),
            LocaleKey::MenuBar => (130, "MenuBar"@),
            LocaleKey::Fun => (131, "Fun"@),
            LocaleKey::GlobalShortcut => (132, "GlobalShortcut"@),
            LocaleKey::Privacy => (133, "Privacy"@),
            LocaleKey::Updates => (134, "Updates"@),
            LocaleKey::UpdateChannel => (135, "UpdateChannel"@),
            LocaleKey::UpdateChannelStable => (136, "UpdateChannelStable"@),
            LocaleKey::UpdateChannelBeta => (137, "UpdateChannelBeta"@),
            LocaleKey::Never => (138, "Never"@),
            LocaleKey::LastUpdated => (139, "LastUpdated"@),
            LocaleKey::NeverUpdated => (140, "NeverUpdated"@),
            LocaleKey::MinutesAgo => (141, "MinutesAgo"@),
            LocaleKey::HoursAgo => (142, "HoursAgo"@),
            LocaleKey::DaysAgo => (143, "DaysAgo"@),
            LocaleKey::BuiltWithRust => (144, "BuiltWithRust"@),
            LocaleKey::OriginalMacOSVersion => (145, "OriginalMacOSVersion"@),
            LocaleKey::Links => (146, "Links"@),
            LocaleKey::BuildInfo => (147, "BuildInfo"@),
            LocaleKey::EnabledProviders => (148, "EnabledProviders"@),
            LocaleKey::Appearance => (149, "Appearance"@),
            LocaleKey::ThemeSelection => (150, "ThemeSelection"@),
            LocaleKey::LightMode => (151, "LightMode"@),
            LocaleKey::DarkMode => (152, "DarkMode"@),
            LocaleKey::AboutTitle => (153, "AboutTitle"@),
            LocaleKey::Version => (154, "Version"@),
            LocaleKey::ActionRefreshAll => (155, "ActionRefreshAll"@),
            LocaleKey::ActionSettings => (156, "ActionSettings"@),
            LocaleKey::ActionClose => (157, "ActionClose"@),
            LocaleKey::ProviderAccount => (158, "ProviderAccount"@),
            LocaleKey::ProviderSession => (159, "ProviderSession"@),
            LocaleKey::ProviderWeekly => (160, "ProviderWeekly"@),
            LocaleKey::ProviderMonthly => (161, "ProviderMonthly"@),
            LocaleKey::DeepSeekPricingTitle => (162, "DeepSeekPricingTitle"@),
            LocaleKey::DeepSeekPricingStandard => (163, "DeepSeekPricingStandard"@),
            LocaleKey::DeepSeekPricingPeak => (164, "DeepSeekPricingPeak"@),
            LocaleKey::DeepSeekPricingOffPeak => (165, "DeepSeekPricingOffPeak"@),
            LocaleKey::DeepSeekPricingCurrent => (166, "DeepSeekPricingCurrent"@),
            LocaleKey::DeepSeekPricingNext => (167, "DeepSeekPricingNext"@),
            LocaleKey::DeepSeekPricingEffective => (168, "DeepSeekPricingEffective"@),
            LocaleKey::DeepSeekPricingAdvice => (169, "DeepSeekPricingAdvice"@),
            LocaleKey::ProviderModel => (170, "ProviderModel"@),
            LocaleKey::ProviderPlan => (171, "ProviderPlan"@),
            LocaleKey::ProviderNextReset => (172, "ProviderNextReset"@),
            LocaleKey::ProviderNoRecentUsage => (173, "ProviderNoRecentUsage"@),
            LocaleKey::ProviderNotSignedIn => (174, "ProviderNotSignedIn"@),
            LocaleKey::SummaryTab => (175, "SummaryTab"@),
            LocaleKey::StateLoadingProviders => (176, "StateLoadingProviders"@),
            LocaleKey::StateNoProviderData => (177, "StateNoProviderData"@),
            LocaleKey::StateNoProviderSelected => (178, "StateNoProviderSelected"@),
            LocaleKey::StateSummaryRefreshPending => (179, "StateSummaryRefreshPending"@),
            LocaleKey::StateError => (180, "StateError"@),
            LocaleKey::StateRetry => (181, "StateRetry"@),
            LocaleKey::StateDownload => (182, "StateDownload"@),
            LocaleKey::StateRestartAndUpdate => (183, "StateRestartAndUpdate"@),
            LocaleKey::CreditsTitle => (184, "CreditsTitle"@),
            LocaleKey::UpdateRestartAndUpdate => (185, "UpdateRestartAndUpdate"@),
            LocaleKey::UpdateRetry => (186, "UpdateRetry"@),
            LocaleKey::UpdateDownload => (187, "UpdateDownload"@),
            LocaleKey::UpdateDownloading => (188, "UpdateDownloading"@),
            LocaleKey::UpdateReady => (189, "UpdateReady"@),
            LocaleKey::UpdateFailed => (190, "UpdateFailed"@),
            LocaleKey::ButtonOpenProviderSettings => (191, "ButtonOpenProviderSettings"@),
            _ => self.entry_from_192(),
        }
    }

    /// The place and the name of a key at place 192 or beyond.
    pub open spec fn entry_from_192(self) -> (int, Seq<char>) {
        match self {
            LocaleKey::MenuSettings => (192, "MenuSettings"@),
            LocaleKey::MenuAbout => (193, "MenuAbout"@),
            LocaleKey::MenuQuit => (194, "MenuQuit"@),
            LocaleKey::StatusJustUpdated => (195, "StatusJustUpdated"@),
            LocaleKey::StatusUnableToGetUsage => (196, "StatusUnableToGetUsage"@),
            LocaleKey::ActionRefresh => (197, "ActionRefresh"@),
            LocaleKey::ActionSwitchAccount => (198, "ActionSwitchAccount"@),
            LocaleKey::ActionUsageDashboard => (199, "ActionUsageDashboard"@),
            LocaleKey::ActionStatusPage => (200, "ActionStatusPage"@),
            LocaleKey::ActionCopyError => (201, "ActionCopyError"@),
            LocaleKey::ActionBuyCredits => (202, "ActionBuyCredits"@),
            LocaleKey::PaceOnTrack => (203, "PaceOnTrack"@),
            LocaleKey::PaceBehind => (204, "PaceBehind"@),
            LocaleKey::MetricResetsIn => (205, "MetricResetsIn"@),
            LocaleKey::SectionUsageBreakdown => (206, "SectionUsageBreakdown"@),
            LocaleKey::SectionCost => (207, "SectionCost"@),
            LocaleKey::ResetInProgress => (208, "ResetInProgress"@),
            LocaleKey::TomorrowAt => (209, "TomorrowAt"@),
            LocaleKey::UsedPercent => (210, "UsedPercent"@),
            LocaleKey::RemainingPercent => (211, "RemainingPercent"@),
            LocaleKey::RemainingAmount => (212, "RemainingAmount"@),
            LocaleKey::Tokens1K => (213, "Tokens1K"@),
            LocaleKey::TodayCost => (214, "TodayCost"@),
            LocaleKey::Last30DaysCost => (215, "Last30DaysCost"@),
            LocaleKey::StatusLabel => (216, "StatusLabel"@),
            LocaleKey::TrayOpenCodexBar => (217, "TrayOpenCodexBar"@),
            LocaleKey::TrayPopOutDashboard => (218, "TrayPopOutDashboard"@),
            LocaleKey::TrayShowWindow => (219, "TrayShowWindow"@),
            LocaleKey::TrayShowFloatBar => (220, "TrayShowFloatBar"@),
            LocaleKey::TrayRefreshAll => (221, "TrayRefreshAll"@),
            LocaleKey::TrayProviders => (222, "TrayProviders"@),
            LocaleKey::TraySettings => (223, "TraySettings"@),
            LocaleKey::TrayCheckForUpdates => (224, "TrayCheckForUpdates"@),
            LocaleKey::TrayQuit => (225, "TrayQuit"@),
            LocaleKey::TrayLoading => (226, "TrayLoading"@),
            LocaleKey::TrayNoProviders => (227, "TrayNoProviders"@),
            LocaleKey::TraySessionPercent => (228, "TraySessionPercent"@),
            LocaleKey::TrayWeeklyPercent => (229, "TrayWeeklyPercent"@),
            LocaleKey::TrayStatusError => (230, "TrayStatusError"@),
            LocaleKey::TrayStatusStale => (231, "TrayStatusStale"@),
            LocaleKey::TrayStatusIncident => (232, "TrayStatusIncident"@),
            LocaleKey::TrayStatusPartial => (233, "TrayStatusPartial"@),
            LocaleKey::TrayWeeklyExhausted => (234, "TrayWeeklyExhausted"@),
            LocaleKey::TrayCreditsRemaining => (235, "TrayCreditsRemaining"@),
            LocaleKey::TrayStatusRowLoading => (236, "TrayStatusRowLoading"@),
            LocaleKey::TrayStatusRowError => (237, "TrayStatusRowError"@),
            LocaleKey::TrayCreditsRow => (238, "TrayCreditsRow"@),
            LocaleKey::TrayProviderPopOut => (239, "TrayProviderPopOut"@),
            LocaleKey::TrayProviderRefresh => (240, "TrayProviderRefresh"@),
            LocaleKey::TrayProviderSettings => (241, "TrayProviderSettings"@),
            LocaleKey::TrayProviderQuit => (242, "TrayProviderQuit"@),
            LocaleKey::State => (243, "State"@),
            LocaleKey::Source => (244, "Source"@),
            LocaleKey::Updated => (245, "Updated"@),
            LocaleKey::UpdatedJustNow => (246, "UpdatedJustNow"@),
            LocaleKey::UpdatedMinutesAgo => (247, "UpdatedMinutesAgo"@),
            LocaleKey::UpdatedHoursAgo => (248, "UpdatedHoursAgo"@),
            LocaleKey::UpdatedDaysAgo => (249, "UpdatedDaysAgo"@),
            LocaleKey::Status => (250, "Status"@),
            LocaleKey::AllSystemsOperational => (251, "AllSystemsOperational"@),
            LocaleKey::Plan => (252, "Plan"@),
            LocaleKey::Account => (253, "Account"@),
            LocaleKey::ProviderSessionLabel => (254, "ProviderSessionLabel"@),
            LocaleKey::ProviderWeeklyLabel => (255, "ProviderWeeklyLabel"@),
            _ => self.entry_from_256(),
        }
    }

    /// The place and the name of a key at place 256 or beyond.
    pub open spec fn entry_from_256(self) -> (int, Seq<char>) {
        match self {
            LocaleKey::ProviderCodeReviewLabel => (256, "ProviderCodeReviewLabel"@),
            LocaleKey::ResetsInShort => (257, "ResetsInShort"@),
            LocaleKey::ResetsInDaysHours => (258, "ResetsInDaysHours"@),
            LocaleKey::ResetsInHoursMinutes => (259, "ResetsInHoursMinutes"@),
            LocaleKey::ResetsInMinutes => (260, "ResetsInMinutes"@),
            LocaleKey::NextExpiresInDaysHours => (261, "NextExpiresInDaysHours"@),
            LocaleKey::NextExpiresInHoursMinutes => (262, "NextExpiresInHoursMinutes"@),
            LocaleKey::NextExpiresInMinutes => (263, "NextExpiresInMinutes"@),
            LocaleKey::NextExpiresDueNow => (264, "NextExpiresDueNow"@),
            LocaleKey::TrayDisplayTitle => (265, "TrayDisplayTitle"@),
            LocaleKey::ShowInTray => (266, "ShowInTray"@),
            LocaleKey::CreditsLabel => (267, "CreditsLabel"@),
            LocaleKey::CreditsLeft => (268, "CreditsLeft"@),
            LocaleKey::CostTitle => (269, "CostTitle"@),
            LocaleKey::TodayCostFull => (270, "TodayCostFull"@),
            LocaleKey::Last30DaysCostFull => (271, "Last30DaysCostFull"@),
            LocaleKey::ProviderSettingsTitle => (272, "ProviderSettingsTitle"@),
            LocaleKey::ProviderAccountsTitle => (273, "ProviderAccountsTitle"@),
            LocaleKey::ProviderOptionsTitle => (274, "ProviderOptionsTitle"@),
            LocaleKey::MenuBarMetric => (275, "MenuBarMetric"@),
            LocaleKey::MenuBarMetricHelper => (276, "MenuBarMetricHelper"@),
            LocaleKey::UsageSource => (277, "UsageSource"@),
            LocaleKey::ProviderNoCodexAccountsDetected => (278, "ProviderNoCodexAccountsDetected"@),
            LocaleKey::ProviderCodexAutoImportHelp => (279, "ProviderCodexAutoImportHelp"@),
            LocaleKey::ProviderCodexHistoryHelp => (280, "ProviderCodexHistoryHelp"@),
            LocaleKey::ProviderOpenAiCookies => (281, "ProviderOpenAiCookies"@),
            LocaleKey::ProviderHistoricalTracking => (282, "ProviderHistoricalTracking"@),
            LocaleKey::ProviderOpenAiWebExtras => (283, "ProviderOpenAiWebExtras"@),
            LocaleKey::ProviderOpenAiWebExtrasHelp => (284, "ProviderOpenAiWebExtrasHelp"@),
            LocaleKey::ProviderCodexCreditsUnavailable => (285, "ProviderCodexCreditsUnavailable"@),
            LocaleKey::ProviderCodexLastFetchFailedTitle => (286, "ProviderCodexLastFetchFailedTitle"@),
            LocaleKey::ProviderCodexNotRunningHelp => (287, "ProviderCodexNotRunningHelp"@),
            LocaleKey::ProviderCookieSource => (288, "ProviderCookieSource"@),
            LocaleKey::CookieSourceManual => (289, "CookieSourceManual"@),
            LocaleKey::ProviderRegion => (290, "ProviderRegion"@),
            LocaleKey::ProviderClaudeCookies => (291, "ProviderClaudeCookies"@),
            LocaleKey::ProviderClaudeCookiesHelp => (292, "ProviderClaudeCookiesHelp"@),
            LocaleKey::ProviderClaudeAvoidKeychainPrompts => (293, "ProviderClaudeAvoidKeychainPrompts"@),
            LocaleKey::ProviderClaudeAvoidKeychainPromptsHelp => (294, "ProviderClaudeAvoidKeychainPromptsHelp"@),
            LocaleKey::ProviderClaudeDailyRoutinesUsage => (295, "ProviderClaudeDailyRoutinesUsage"@),
            LocaleKey::ProviderClaudeDailyRoutinesUsageHelp => (296, "ProviderClaudeDailyRoutinesUsageHelp"@),
            LocaleKey::ProviderClaudeAllowReadingClaudeCodeCredentials => (297, "ProviderClaudeAllowReadingClaudeCodeCredentials"@),
            LocaleKey::ProviderClaudeAllowReadingClaudeCodeCredentialsHelp => (298, "ProviderClaudeAllowReadingClaudeCodeCredentialsHelp"@),
            LocaleKey::ProviderCodexSparkUsage => (299, "ProviderCodexSparkUsage"@),
            LocaleKey::ProviderCodexSparkUsageHelp => (300, "ProviderCodexSparkUsageHelp"@),
            LocaleKey::CodexAccountsTitle => (301, "CodexAccountsTitle"@),
            LocaleKey::ClaudeAccountsTitle => (302, "ClaudeAccountsTitle"@),
            LocaleKey::ClaudeAccountsHint => (303, "ClaudeAccountsHint"@),
            LocaleKey::ClaudeAccountsEmpty => (304, "ClaudeAccountsEmpty"@),
            LocaleKey::ClaudeAccountsSaveCurrent => (305, "ClaudeAccountsSaveCurrent"@),
            LocaleKey::ClaudeAccountsCancelLogin => (306, "ClaudeAccountsCancelLogin"@),
            LocaleKey::ClaudeAccountsSigningIn => (307, "ClaudeAccountsSigningIn"@),
            LocaleKey::ClaudeAccountsSwitched => (308, "ClaudeAccountsSwitched"@),
            LocaleKey::ClaudeAccountsAdded => (309, "ClaudeAccountsAdded"@),
            LocaleKey::CodexAccountsHint => (310, "CodexAccountsHint"@),
            LocaleKey::CodexAccountsAddButton => (311, "CodexAccountsAddButton"@),
            LocaleKey::CodexAccountsSwitchButton => (312, "CodexAccountsSwitchButton"@),
            LocaleKey::CodexAccountsFetchButton => (313, "CodexAccountsFetchButton"@),
            LocaleKey::CodexAccountsRemoveButton => (314, "CodexAccountsRemoveButton"@),
            LocaleKey::CodexAccountsEmpty => (315, "CodexAccountsEmpty"@),
            LocaleKey::CodexAccountsSourceAmbient => (316, "CodexAccountsSourceAmbient"@),
            LocaleKey::CodexAccountsSourceManaged => (317, "CodexAccountsSourceManaged"@),
            LocaleKey::CodexAccountsUsageUnavailable => (318, "CodexAccountsUsageUnavailable"@),
            LocaleKey::CodexSwitchSuccess => (319, "CodexSwitchSuccess"@),
            _ => self.entry_from_320(),
        }
    }

    /// The place and the name of a key at place 320 or beyond.
    pub open spec fn entry_from_320(self) -> (int, Seq<char>) {
        match self {
            LocaleKey::CodexSwitchRestartPrompt => (320, "CodexSwitchRestartPrompt"@),
            LocaleKey::CodexAccountsRestartDesktop => (321, "CodexAccountsRestartDesktop"@),
            LocaleKey::ProviderCursorCookieSourceHelp => (322, "ProviderCursorCookieSourceHelp"@),
            LocaleKey::ProviderCursorCreditsHelp => (323, "ProviderCursorCreditsHelp"@),
            LocaleKey::AutoFallbackHelp => (324, "AutoFallbackHelp"@),
            LocaleKey::ProviderSourceOauthWeb => (325, "ProviderSourceOauthWeb"@),
            LocaleKey::Automatic => (326, "Automatic"@),
            LocaleKey::Average => (327, "Average"@),
            LocaleKey::ExtraUsage => (328, "ExtraUsage"@),
            LocaleKey::OAuth => (329, "OAuth"@),
            LocaleKey::Api => (330, "Api"@),
            LocaleKey::Web => (331, "Web"@),
            LocaleKey::PrivacyTitle => (332, "PrivacyTitle"@),
            LocaleKey::HidePersonalInfo => (333, "HidePersonalInfo"@),
            LocaleKey::HidePersonalInfoHelper => (334, "HidePersonalInfoHelper"@),
            LocaleKey::SectionLocalIntegrations => (335, "SectionLocalIntegrations"@),
            LocaleKey::PowerToysPipeLabel => (336, "PowerToysPipeLabel"@),
            LocaleKey::PowerToysPipeHelper => (337, "PowerToysPipeHelper"@),
            LocaleKey::HooksTitle => (338, "HooksTitle"@),
            LocaleKey::HooksCaption => (339, "HooksCaption"@),
            LocaleKey::HooksEnableLabel => (340, "HooksEnableLabel"@),
            LocaleKey::HooksEnableHelper => (341, "HooksEnableHelper"@),
            LocaleKey::HooksConfigPathHint => (342, "HooksConfigPathHint"@),
            LocaleKey::NetworkProxyTitle => (343, "NetworkProxyTitle"@),
            LocaleKey::NetworkProxyCaption => (344, "NetworkProxyCaption"@),
            LocaleKey::NetworkProxyEnableLabel => (345, "NetworkProxyEnableLabel"@),
            LocaleKey::NetworkProxyEnableHelper => (346, "NetworkProxyEnableHelper"@),
            LocaleKey::NetworkProxyUrlLabel => (347, "NetworkProxyUrlLabel"@),
            LocaleKey::NetworkProxyUrlHelper => (348, "NetworkProxyUrlHelper"@),
            LocaleKey::NetworkProxyUserLabel => (349, "NetworkProxyUserLabel"@),
            LocaleKey::NetworkProxyPasswordLabel => (350, "NetworkProxyPasswordLabel"@),
            LocaleKey::NetworkProxyPasswordHelper => (351, "NetworkProxyPasswordHelper"@),
            LocaleKey::NetworkProxyInvalidUrl => (352, "NetworkProxyInvalidUrl"@),
            LocaleKey::UsageSpendTitle => (353, "UsageSpendTitle"@),
            LocaleKey::UsageSpendCaption => (354, "UsageSpendCaption"@),
            LocaleKey::UsageSpendModels => (355, "UsageSpendModels"@),
            LocaleKey::UsageSpendAllTime => (356, "UsageSpendAllTime"@),
            LocaleKey::UsageSpendOpenCodexImport => (357, "UsageSpendOpenCodexImport"@),
            LocaleKey::UsageSpendHideNativeCodex => (358, "UsageSpendHideNativeCodex"@),
            LocaleKey::UsageSpendSpend => (359, "UsageSpendSpend"@),
            LocaleKey::UsageSpendPriceCoverage => (360, "UsageSpendPriceCoverage"@),
            LocaleKey::UsageSpendConversations => (361, "UsageSpendConversations"@),
            LocaleKey::UsageSpendTokenMix => (362, "UsageSpendTokenMix"@),
            LocaleKey::UsageSpendKnownZero => (363, "UsageSpendKnownZero"@),
            LocaleKey::UsageSpendApiEstimate => (364, "UsageSpendApiEstimate"@),
            LocaleKey::UsageSpendVendorMetered => (365, "UsageSpendVendorMetered"@),
            LocaleKey::UsageSpendMixedSources => (366, "UsageSpendMixedSources"@),
            LocaleKey::UsageSpendUnknown => (367, "UsageSpendUnknown"@),
            LocaleKey::UsageSpendUnpriced => (368, "UsageSpendUnpriced"@),
            LocaleKey::UsageSpendHistoryCovered => (369, "UsageSpendHistoryCovered"@),
            LocaleKey::UsageSpendPartialHistory => (370, "UsageSpendPartialHistory"@),
            LocaleKey::UsageSpendCustomPricingActive => (371, "UsageSpendCustomPricingActive"@),
            LocaleKey::UsageSpendDefaultPricing => (372, "UsageSpendDefaultPricing"@),
            LocaleKey::UsageSpendHourlyActivity => (373, "UsageSpendHourlyActivity"@),
            LocaleKey::UsageSpendRequests => (374, "UsageSpendRequests"@),
            LocaleKey::UsageSpendTokens => (375, "UsageSpendTokens"@),
            LocaleKey::UsageSpendAllTimeHistory => (376, "UsageSpendAllTimeHistory"@),
            LocaleKey::UsageSpendCustomPricing => (377, "UsageSpendCustomPricing"@),
            LocaleKey::OverviewSpendTitle => (378, "OverviewSpendTitle"@),
            LocaleKey::OverviewSpendProviderCoverage => (379, "OverviewSpendProviderCoverage"@),
            LocaleKey::OverviewSpendEstimate => (380, "OverviewSpendEstimate"@),
            LocaleKey::UsageSpendProjects => (381, "UsageSpendProjects"@),
            LocaleKey::UsageSpendShowAll => (382, "UsageSpendShowAll"@),
            LocaleKey::UsageSpendShowLess => (383, "UsageSpendShowLess"@),
            _ => self.entry_from_384(),
        }
    }

    /// The place and the name of a key at place 384 or beyond.
    pub open spec fn entry_from_384(self) -> (int, Seq<char>) {
        match self {
            LocaleKey::UsageSpendNoModels => (384, "UsageSpendNoModels"@),
            LocaleKey::UsageSpendNoProjects => (385, "UsageSpendNoProjects"@),
            LocaleKey::UsageSpendRefresh => (386, "UsageSpendRefresh"@),
            LocaleKey::UsageSpendLoading => (387, "UsageSpendLoading"@),
            LocaleKey::UsageSpendRefreshing => (388, "UsageSpendRefreshing"@),
            LocaleKey::UsageSpendEmpty => (389, "UsageSpendEmpty"@),
            LocaleKey::UsageSpendColProvider => (390, "UsageSpendColProvider"@),
            LocaleKey::UsageSpendCol7d => (391, "UsageSpendCol7d"@),
            LocaleKey::UsageSpendCol30d => (392, "UsageSpendCol30d"@),
            LocaleKey::UsageSpendColCurrency => (393, "UsageSpendColCurrency"@),
            LocaleKey::UsageSpendColSource => (394, "UsageSpendColSource"@),
            LocaleKey::UsageSpendShare => (395, "UsageSpendShare"@),
            LocaleKey::UsageSpendCopyJson => (396, "UsageSpendCopyJson"@),
            LocaleKey::UsageSpendSaveJson => (397, "UsageSpendSaveJson"@),
            LocaleKey::UsageSpendShareEmpty => (398, "UsageSpendShareEmpty"@),
            LocaleKey::UsageSpendShareFailed => (399, "UsageSpendShareFailed"@),
            LocaleKey::AgentSessionsTitle => (400, "AgentSessionsTitle"@),
            LocaleKey::AgentSessionsEnableLabel => (401, "AgentSessionsEnableLabel"@),
            LocaleKey::AgentSessionsEnableHelper => (402, "AgentSessionsEnableHelper"@),
            LocaleKey::AgentSessionsSshHostsLabel => (403, "AgentSessionsSshHostsLabel"@),
            LocaleKey::AgentSessionsSshHostsHelper => (404, "AgentSessionsSshHostsHelper"@),
            LocaleKey::AgentSessionsLoading => (405, "AgentSessionsLoading"@),
            LocaleKey::AgentSessionsEmpty => (406, "AgentSessionsEmpty"@),
            LocaleKey::UpdatesTitle => (407, "UpdatesTitle"@),
            LocaleKey::UpdateChannelChoice => (408, "UpdateChannelChoice"@),
            LocaleKey::UpdateChannelChoiceHelper => (409, "UpdateChannelChoiceHelper"@),
            LocaleKey::AutoDownloadUpdates => (410, "AutoDownloadUpdates"@),
            LocaleKey::AutoDownloadUpdatesHelper => (411, "AutoDownloadUpdatesHelper"@),
            LocaleKey::InstallUpdatesOnQuit => (412, "InstallUpdatesOnQuit"@),
            LocaleKey::InstallUpdatesOnQuitHelper => (413, "InstallUpdatesOnQuitHelper"@),
            LocaleKey::KeyboardShortcutsTitle => (414, "KeyboardShortcutsTitle"@),
            LocaleKey::GlobalShortcutLabel => (415, "GlobalShortcutLabel"@),
            LocaleKey::GlobalShortcutHelper => (416, "GlobalShortcutHelper"@),
            LocaleKey::ShortcutFormatHint => (417, "ShortcutFormatHint"@),
            LocaleKey::Saved => (418, "Saved"@),
            LocaleKey::InvalidFormat => (419, "InvalidFormat"@),
            LocaleKey::ShortcutHintPlaceholder => (420, "ShortcutHintPlaceholder"@),
            LocaleKey::SelectProvider => (421, "SelectProvider"@),
            LocaleKey::RefreshInterval30Sec => (422, "RefreshInterval30Sec"@),
            LocaleKey::RefreshInterval1Min => (423, "RefreshInterval1Min"@),
            LocaleKey::RefreshInterval5Min => (424, "RefreshInterval5Min"@),
            LocaleKey::RefreshInterval10Min => (425, "RefreshInterval10Min"@),
            LocaleKey::BrowserCookiesTitle => (426, "BrowserCookiesTitle"@),
            LocaleKey::CookieImport => (427, "CookieImport"@),
            LocaleKey::Provider => (428, "Provider"@),
            LocaleKey::SelectPlaceholder => (429, "SelectPlaceholder"@),
            LocaleKey::AutoRefreshInterval => (430, "AutoRefreshInterval"@),
            LocaleKey::AboutDescription => (431, "AboutDescription"@),
            LocaleKey::AboutDescriptionLine2 => (432, "AboutDescriptionLine2"@),
            LocaleKey::ViewOnGitHub => (433, "ViewOnGitHub"@),
            LocaleKey::SubmitIssue => (434, "SubmitIssue"@),
            LocaleKey::MaintainedBy => (435, "MaintainedBy"@),
            LocaleKey::CommitLabel => (436, "CommitLabel"@),
            LocaleKey::BuildDateLabel => (437, "BuildDateLabel"@),
            LocaleKey::Save => (438, "Save"@),
            LocaleKey::Cancel => (439, "Cancel"@),
            LocaleKey::Label => (440, "Label"@),
            LocaleKey::Token => (441, "Token"@),
            LocaleKey::AddAccount => (442, "AddAccount"@),
            LocaleKey::AccountAdded => (443, "AccountAdded"@),
            LocaleKey::AccountRemoved => (444, "AccountRemoved"@),
            LocaleKey::AccountSwitched => (445, "AccountSwitched"@),
            LocaleKey::AccountLabelHint => (446, "AccountLabelHint"@),
            LocaleKey::EnterApiKeyFor => (447, "EnterApiKeyFor"@),
            _ => self.entry_from_448(),
        }
    }

    /// The place and the name of a key at place 448 or beyond.
    pub open spec fn entry_from_448(self) -> (int, Seq<char>) {
        match self {
            LocaleKey::PasteApiKeyHere => (448, "PasteApiKeyHere"@),
            LocaleKey::ApiKeySaved => (449, "ApiKeySaved"@),
            LocaleKey::ApiKeyRemoved => (450, "ApiKeyRemoved"@),
            LocaleKey::EnvironmentVariable => (451, "EnvironmentVariable"@),
            LocaleKey::CookieSavedForProvider => (452, "CookieSavedForProvider"@),
            LocaleKey::CookieRemovedForProvider => (453, "CookieRemovedForProvider"@),
            LocaleKey::ShowUsedPercent => (454, "ShowUsedPercent"@),
            LocaleKey::ShowRemainingPercent => (455, "ShowRemainingPercent"@),
            LocaleKey::UpdateAvailableMessage => (456, "UpdateAvailableMessage"@),
            LocaleKey::UpdateReadyMessage => (457, "UpdateReadyMessage"@),
            LocaleKey::UpdateFailedMessage => (458, "UpdateFailedMessage"@),
            LocaleKey::UpdateDownloadingMessage => (459, "UpdateDownloadingMessage"@),
            LocaleKey::TabTokenAccounts => (460, "TabTokenAccounts"@),
            LocaleKey::SectionRefresh => (461, "SectionRefresh"@),
            LocaleKey::SectionNotifications => (462, "SectionNotifications"@),
            LocaleKey::SectionUsageThresholds => (463, "SectionUsageThresholds"@),
            LocaleKey::SectionKeyboard => (464, "SectionKeyboard"@),
            LocaleKey::SectionUsageRendering => (465, "SectionUsageRendering"@),
            LocaleKey::SectionTime => (466, "SectionTime"@),
            LocaleKey::SectionLanguage => (467, "SectionLanguage"@),
            LocaleKey::SectionCredentialsSecurity => (468, "SectionCredentialsSecurity"@),
            LocaleKey::SectionDebug => (469, "SectionDebug"@),
            LocaleKey::SectionApiKeys => (470, "SectionApiKeys"@),
            LocaleKey::SectionSavedCookies => (471, "SectionSavedCookies"@),
            LocaleKey::SectionImportFromBrowser => (472, "SectionImportFromBrowser"@),
            LocaleKey::SectionAddCookieManually => (473, "SectionAddCookieManually"@),
            LocaleKey::SectionTokenAccounts => (474, "SectionTokenAccounts"@),
            LocaleKey::SectionSavedAccounts => (475, "SectionSavedAccounts"@),
            LocaleKey::SectionAddAccount => (476, "SectionAddAccount"@),
            LocaleKey::RefreshIntervalLabel => (477, "RefreshIntervalLabel"@),
            LocaleKey::RefreshIntervalHelper => (478, "RefreshIntervalHelper"@),
            LocaleKey::RefreshAllProvidersOnMenuOpen => (479, "RefreshAllProvidersOnMenuOpen"@),
            LocaleKey::RefreshAllProvidersOnMenuOpenHelper => (480, "RefreshAllProvidersOnMenuOpenHelper"@),
            LocaleKey::LowPowerMode => (481, "LowPowerMode"@),
            LocaleKey::LowPowerModeHelper => (482, "LowPowerModeHelper"@),
            LocaleKey::LowPowerModeOff => (483, "LowPowerModeOff"@),
            LocaleKey::LowPowerModeOn => (484, "LowPowerModeOn"@),
            LocaleKey::LowPowerModeAutomatic => (485, "LowPowerModeAutomatic"@),
            LocaleKey::HighUsageWarningHelper => (486, "HighUsageWarningHelper"@),
            LocaleKey::CriticalUsageWarningHelper => (487, "CriticalUsageWarningHelper"@),
            LocaleKey::GlobalShortcutFieldLabel => (488, "GlobalShortcutFieldLabel"@),
            LocaleKey::GlobalShortcutToggleHelper => (489, "GlobalShortcutToggleHelper"@),
            LocaleKey::ShortcutRecordButton => (490, "ShortcutRecordButton"@),
            LocaleKey::ShortcutRecordingLabel => (491, "ShortcutRecordingLabel"@),
            LocaleKey::ShortcutRecordingHint => (492, "ShortcutRecordingHint"@),
            LocaleKey::ShortcutClearButton => (493, "ShortcutClearButton"@),
            LocaleKey::ShortcutEmptyPlaceholder => (494, "ShortcutEmptyPlaceholder"@),
            LocaleKey::NotificationTestSound => (495, "NotificationTestSound"@),
            LocaleKey::NotificationTestSoundPlaying => (496, "NotificationTestSoundPlaying"@),
            LocaleKey::TrayIconModeLabel => (497, "TrayIconModeLabel"@),
            LocaleKey::TrayIconModeHelper => (498, "TrayIconModeHelper"@),
            LocaleKey::TrayIconModeSingle => (499, "TrayIconModeSingle"@),
            LocaleKey::TrayIconModePerProvider => (500, "TrayIconModePerProvider"@),
            LocaleKey::ShowProviderIcons => (501, "ShowProviderIcons"@),
            LocaleKey::ShowProviderIconsHelper => (502, "ShowProviderIconsHelper"@),
            LocaleKey::PreferHighestUsage => (503, "PreferHighestUsage"@),
            LocaleKey::PreferHighestUsageHelper => (504, "PreferHighestUsageHelper"@),
            LocaleKey::ShowPercentInTray => (505, "ShowPercentInTray"@),
            LocaleKey::ShowPercentInTrayHelper => (506, "ShowPercentInTrayHelper"@),
            LocaleKey::DisplayModeLabel => (507, "DisplayModeLabel"@),
            LocaleKey::DisplayModeHelper => (508, "DisplayModeHelper"@),
            LocaleKey::DisplayModeDetailed => (509, "DisplayModeDetailed"@),
            LocaleKey::DisplayModeCompact => (510, "DisplayModeCompact"@),
            LocaleKey::DisplayModeMinimal => (511, "DisplayModeMinimal"@),
            _ => self.entry_from_512(),
        }
    }

    /// The place and the name of a key at place 512 or beyond.
    pub open spec fn entry_from_512(self) -> (int, Seq<char>) {
        match self {
            LocaleKey::WindowScaleLabel => (512, "WindowScaleLabel"@),
            LocaleKey::WindowScaleHelper => (513, "WindowScaleHelper"@),
            LocaleKey::WindowScaleAriaLabel => (514, "WindowScaleAriaLabel"@),
            LocaleKey::WindowMinimize => (515, "WindowMinimize"@),
            LocaleKey::WindowMaximize => (516, "WindowMaximize"@),
            LocaleKey::WindowRestore => (517, "WindowRestore"@),
            LocaleKey::WindowClose => (518, "WindowClose"@),
            LocaleKey::ShowAsUsedLabel => (519, "ShowAsUsedLabel"@),
            LocaleKey::ShowAsUsedHelper => (520, "ShowAsUsedHelper"@),
            LocaleKey::ShowAllTokenAccountsLabel => (521, "ShowAllTokenAccountsLabel"@),
            LocaleKey::ShowAllTokenAccountsHelper => (522, "ShowAllTokenAccountsHelper"@),
            LocaleKey::EnableAnimationsLabel => (523, "EnableAnimationsLabel"@),
            LocaleKey::EnableAnimationsHelper => (524, "EnableAnimationsHelper"@),
            LocaleKey::UpdateChannelStableOption => (525, "UpdateChannelStableOption"@),
            LocaleKey::UpdateChannelBetaOption => (526, "UpdateChannelBetaOption"@),
            LocaleKey::CodexLocalLogsTitle => (527, "CodexLocalLogsTitle"@),
            LocaleKey::CodexLocalLogsCaption => (528, "CodexLocalLogsCaption"@),
            LocaleKey::CodexLogPathsLabel => (529, "CodexLogPathsLabel"@),
            LocaleKey::CodexLogPathsHelper => (530, "CodexLogPathsHelper"@),
            LocaleKey::AvoidKeychainPromptsLabel => (531, "AvoidKeychainPromptsLabel"@),
            LocaleKey::AvoidKeychainPromptsHelper => (532, "AvoidKeychainPromptsHelper"@),
            LocaleKey::DisableAllKeychainLabel => (533, "DisableAllKeychainLabel"@),
            LocaleKey::DisableAllKeychainHelper => (534, "DisableAllKeychainHelper"@),
            LocaleKey::SectionTheme => (535, "SectionTheme"@),
            LocaleKey::ThemeLabel => (536, "ThemeLabel"@),
            LocaleKey::ThemeHelper => (537, "ThemeHelper"@),
            LocaleKey::ThemeAutoOption => (538, "ThemeAutoOption"@),
            LocaleKey::ThemeLightOption => (539, "ThemeLightOption"@),
            LocaleKey::ThemeDarkOption => (540, "ThemeDarkOption"@),
            LocaleKey::SettingsStatusSaving => (541, "SettingsStatusSaving"@),
            LocaleKey::ApiKeysTabHint => (542, "ApiKeysTabHint"@),
            LocaleKey::FetchingProviderData => (543, "FetchingProviderData"@),
            LocaleKey::NoProvidersConfigured => (544, "NoProvidersConfigured"@),
            LocaleKey::EnableProvidersHint => (545, "EnableProvidersHint"@),
            LocaleKey::OpenSettingsButton => (546, "OpenSettingsButton"@),
            LocaleKey::TooltipRefresh => (547, "TooltipRefresh"@),
            LocaleKey::TooltipSettings => (548, "TooltipSettings"@),
            LocaleKey::TooltipPopOut => (549, "TooltipPopOut"@),
            LocaleKey::TooltipBackToTray => (550, "TooltipBackToTray"@),
            LocaleKey::TrayCardErrorBadge => (551, "TrayCardErrorBadge"@),
            LocaleKey::SummaryProvidersLabel => (552, "SummaryProvidersLabel"@),
            LocaleKey::SummaryRefreshing => (553, "SummaryRefreshing"@),
            LocaleKey::SummaryFailed => (554, "SummaryFailed"@),
            LocaleKey::SummaryWithErrors => (555, "SummaryWithErrors"@),
            LocaleKey::DetailBackButton => (556, "DetailBackButton"@),
            LocaleKey::DetailWindowPrimary => (557, "DetailWindowPrimary"@),
            LocaleKey::DetailWindowSecondary => (558, "DetailWindowSecondary"@),
            LocaleKey::DetailWindowModelSpecific => (559, "DetailWindowModelSpecific"@),
            LocaleKey::DetailWindowTertiary => (560, "DetailWindowTertiary"@),
            LocaleKey::DetailWindowMinutesSuffix => (561, "DetailWindowMinutesSuffix"@),
            LocaleKey::DetailWindowExhausted => (562, "DetailWindowExhausted"@),
            LocaleKey::DetailPaceTitle => (563, "DetailPaceTitle"@),
            LocaleKey::DetailPaceOnTrack => (564, "DetailPaceOnTrack"@),
            LocaleKey::DetailPaceSlightlyAhead => (565, "DetailPaceSlightlyAhead"@),
            LocaleKey::DetailPaceAhead => (566, "DetailPaceAhead"@),
            LocaleKey::DetailPaceFarAhead => (567, "DetailPaceFarAhead"@),
            LocaleKey::DetailPaceSlightlyBehind => (568, "DetailPaceSlightlyBehind"@),
            LocaleKey::DetailPaceBehind => (569, "DetailPaceBehind"@),
            LocaleKey::DetailPaceFarBehind => (570, "DetailPaceFarBehind"@),
            LocaleKey::DetailPaceRunsOutIn => (571, "DetailPaceRunsOutIn"@),
            LocaleKey::DetailPaceWillLastToReset => (572, "DetailPaceWillLastToReset"@),
            LocaleKey::DetailCostTitle => (573, "DetailCostTitle"@),
            LocaleKey::DetailCostUsed => (574, "DetailCostUsed"@),
            LocaleKey::DetailCostLimit => (575, "DetailCostLimit"@),
            _ => self.entry_from_576(),
        }
    }

    /// The place and the name of a key at place 576 or beyond.
    pub open spec fn entry_from_576(self) -> (int, Seq<char>) {
        match self {
            LocaleKey::DetailCostRemaining => (576, "DetailCostRemaining"@),
            LocaleKey::DetailCostBalance => (577, "DetailCostBalance"@),
            LocaleKey::DetailCostResets => (578, "DetailCostResets"@),
            LocaleKey::DetailChartCost => (579, "DetailChartCost"@),
            LocaleKey::DetailChartTokens => (580, "DetailChartTokens"@),
            LocaleKey::DetailChartRefreshing => (581, "DetailChartRefreshing"@),
            LocaleKey::DetailChartCredits => (582, "DetailChartCredits"@),
            LocaleKey::DetailChartUsageBreakdown => (583, "DetailChartUsageBreakdown"@),
            LocaleKey::DetailChartEmpty => (584, "DetailChartEmpty"@),
            LocaleKey::DetailUpdatedPrefix => (585, "DetailUpdatedPrefix"@),
            LocaleKey::PanelAllProviders => (586, "PanelAllProviders"@),
            LocaleKey::PanelAllProvidersShort => (587, "PanelAllProvidersShort"@),
            LocaleKey::PanelShowAllProviders => (588, "PanelShowAllProviders"@),
            LocaleKey::PanelShowFewerProviders => (589, "PanelShowFewerProviders"@),
            LocaleKey::PanelZoom => (590, "PanelZoom"@),
            LocaleKey::PanelMenu => (591, "PanelMenu"@),
            LocaleKey::PanelCopied => (592, "PanelCopied"@),
            LocaleKey::PanelToday => (593, "PanelToday"@),
            LocaleKey::PanelThirtyDayCost => (594, "PanelThirtyDayCost"@),
            LocaleKey::PanelThirtyDayTokens => (595, "PanelThirtyDayTokens"@),
            LocaleKey::PanelLatestTokens => (596, "PanelLatestTokens"@),
            LocaleKey::PanelThirtyDayCostHistogram => (597, "PanelThirtyDayCostHistogram"@),
            LocaleKey::PanelTopModelPrefix => (598, "PanelTopModelPrefix"@),
            LocaleKey::PanelEstimatedFromLocalLogs => (599, "PanelEstimatedFromLocalLogs"@),
            LocaleKey::PanelEstimatedFromLocalLogsClaude => (600, "PanelEstimatedFromLocalLogsClaude"@),
            LocaleKey::PanelExpected => (601, "PanelExpected"@),
            LocaleKey::PanelActual => (602, "PanelActual"@),
            LocaleKey::PanelUsedSuffix => (603, "PanelUsedSuffix"@),
            LocaleKey::PanelLeftSuffix => (604, "PanelLeftSuffix"@),
            LocaleKey::PanelOnPaceBudget => (605, "PanelOnPaceBudget"@),
            LocaleKey::PanelNow => (606, "PanelNow"@),
            LocaleKey::PanelOneHour => (607, "PanelOneHour"@),
            LocaleKey::PanelFiveHours => (608, "PanelFiveHours"@),
            LocaleKey::PanelTodayBudget => (609, "PanelTodayBudget"@),
            LocaleKey::PanelReserveSuffix => (610, "PanelReserveSuffix"@),
            LocaleKey::PanelReserveLastsUntilReset => (611, "PanelReserveLastsUntilReset"@),
            LocaleKey::PanelReserveRunsOutInDaysHours => (612, "PanelReserveRunsOutInDaysHours"@),
            LocaleKey::PanelReserveRunsOutInHours => (613, "PanelReserveRunsOutInHours"@),
            LocaleKey::FloatBarThirtyDayShort => (614, "FloatBarThirtyDayShort"@),
            LocaleKey::FloatBarNoProviders => (615, "FloatBarNoProviders"@),
            LocaleKey::FloatBarRemainingSuffix => (616, "FloatBarRemainingSuffix"@),
            LocaleKey::FloatBarShowCost => (617, "FloatBarShowCost"@),
            LocaleKey::FloatBarShowCostDescription => (618, "FloatBarShowCostDescription"@),
            LocaleKey::BannerCheckingForUpdates => (619, "BannerCheckingForUpdates"@),
            LocaleKey::BannerUpdateAvailablePrefix => (620, "BannerUpdateAvailablePrefix"@),
            LocaleKey::BannerDownloadButton => (621, "BannerDownloadButton"@),
            LocaleKey::BannerViewRelease => (622, "BannerViewRelease"@),
            LocaleKey::BannerDismiss => (623, "BannerDismiss"@),
            LocaleKey::BannerDownloadingPrefix => (624, "BannerDownloadingPrefix"@),
            LocaleKey::BannerReadyToInstallSuffix => (625, "BannerReadyToInstallSuffix"@),
            LocaleKey::BannerInstallRestart => (626, "BannerInstallRestart"@),
            LocaleKey::BannerUpdateFailedPrefix => (627, "BannerUpdateFailedPrefix"@),
            LocaleKey::BannerRetry => (628, "BannerRetry"@),
            LocaleKey::ProviderSidebarSearch => (629, "ProviderSidebarSearch"@),
            LocaleKey::ProviderSidebarClearSearch => (630, "ProviderSidebarClearSearch"@),
            LocaleKey::ProviderSidebarNoMatches => (631, "ProviderSidebarNoMatches"@),
            LocaleKey::ProviderSidebarReorderHint => (632, "ProviderSidebarReorderHint"@),
            LocaleKey::ProviderSidebarMoveUp => (633, "ProviderSidebarMoveUp"@),
            LocaleKey::ProviderSidebarMoveDown => (634, "ProviderSidebarMoveDown"@),
            LocaleKey::ProviderStatusOk => (635, "ProviderStatusOk"@),
            LocaleKey::ProviderStatusStale => (636, "ProviderStatusStale"@),
            LocaleKey::ProviderStatusError => (637, "ProviderStatusError"@),
            LocaleKey::ProviderStatusLoading => (638, "ProviderStatusLoading"@),
            LocaleKey::ProviderStatusDisabled => (639, "ProviderStatusDisabled"@),
            _ => self.entry_from_640(),
        }
    }

    /// The place and the name of a key at place 640 or beyond.
    pub open spec fn entry_from_640(self) -> (int, Seq<char>) {
        match self {
            LocaleKey::ProviderDetailPlaceholder => (640, "ProviderDetailPlaceholder"@),
            LocaleKey::ProviderIssueNeedsSignIn => (641, "ProviderIssueNeedsSignIn"@),
            LocaleKey::ProviderIssueFetchNeedsAttention => (642, "ProviderIssueFetchNeedsAttention"@),
            LocaleKey::ProviderIssueCopy => (643, "ProviderIssueCopy"@),
            LocaleKey::ProviderIssueUnsupportedSourceModePrefix => (644, "ProviderIssueUnsupportedSourceModePrefix"@),
            LocaleKey::ProviderIssueAuthRequired => (645, "ProviderIssueAuthRequired"@),
            LocaleKey::ProviderIssueSessionExpired => (646, "ProviderIssueSessionExpired"@),
            LocaleKey::ProviderIssueLocalRuntimeOffline => (647, "ProviderIssueLocalRuntimeOffline"@),
            LocaleKey::ProviderIssueUnknown => (648, "ProviderIssueUnknown"@),
            LocaleKey::ProviderIssuePrivacySafeDetail => (649, "ProviderIssuePrivacySafeDetail"@),
            LocaleKey::CredentialStorageTitle => (650, "CredentialStorageTitle"@),
            LocaleKey::CredentialRevokeStored => (651, "CredentialRevokeStored"@),
            LocaleKey::CredentialApiKeys => (652, "CredentialApiKeys"@),
            LocaleKey::CredentialManualCookies => (653, "CredentialManualCookies"@),
            LocaleKey::CredentialTokenAccounts => (654, "CredentialTokenAccounts"@),
            LocaleKey::CredentialProtectedPrefix => (655, "CredentialProtectedPrefix"@),
            LocaleKey::CredentialStatusNotCreated => (656, "CredentialStatusNotCreated"@),
            LocaleKey::CredentialStatusPlaintext => (657, "CredentialStatusPlaintext"@),
            LocaleKey::CredentialStatusUnavailable => (658, "CredentialStatusUnavailable"@),
            LocaleKey::CredentialStatusUnreadable => (659, "CredentialStatusUnreadable"@),
            LocaleKey::BrowserCookiesSectionTitle => (660, "BrowserCookiesSectionTitle"@),
            LocaleKey::BrowserCookieNoneSaved => (661, "BrowserCookieNoneSaved"@),
            LocaleKey::BrowserCookieSavedBadge => (662, "BrowserCookieSavedBadge"@),
            LocaleKey::BrowserCookieRemove => (663, "BrowserCookieRemove"@),
            LocaleKey::BrowserCookieImportSuccess => (664, "BrowserCookieImportSuccess"@),
            LocaleKey::BrowserCookieImportFromBrowser => (665, "BrowserCookieImportFromBrowser"@),
            LocaleKey::BrowserCookieProfileSingular => (666, "BrowserCookieProfileSingular"@),
            LocaleKey::BrowserCookieProfilePlural => (667, "BrowserCookieProfilePlural"@),
            LocaleKey::BrowserCookiePlaceholderDefault => (668, "BrowserCookiePlaceholderDefault"@),
            LocaleKey::BrowserCookiePlaceholderOllama => (669, "BrowserCookiePlaceholderOllama"@),
            LocaleKey::BrowserCookiePlaceholderCurl => (670, "BrowserCookiePlaceholderCurl"@),
            LocaleKey::BrowserCookieSave => (671, "BrowserCookieSave"@),
            LocaleKey::CredentialsSectionTitle => (672, "CredentialsSectionTitle"@),
            LocaleKey::CredsStatusAuthenticated => (673, "CredsStatusAuthenticated"@),
            LocaleKey::CredsStatusNotSignedIn => (674, "CredsStatusNotSignedIn"@),
            LocaleKey::CredsStatusDetected => (675, "CredsStatusDetected"@),
            LocaleKey::CredsStatusNotDetected => (676, "CredsStatusNotDetected"@),
            LocaleKey::CredsStatusAvailable => (677, "CredsStatusAvailable"@),
            LocaleKey::CredsStatusUnavailable => (678, "CredsStatusUnavailable"@),
            LocaleKey::CredsOpenFolderAction => (679, "CredsOpenFolderAction"@),
            LocaleKey::CredsRefreshDetectionAction => (680, "CredsRefreshDetectionAction"@),
            LocaleKey::CredsSavePathAction => (681, "CredsSavePathAction"@),
            LocaleKey::CredsBrowseAction => (682, "CredsBrowseAction"@),
            LocaleKey::CredsGeminiCliLabel => (683, "CredsGeminiCliLabel"@),
            LocaleKey::CredsGeminiCliHelperPrefix => (684, "CredsGeminiCliHelperPrefix"@),
            LocaleKey::CredsGeminiCliSetupAction => (685, "CredsGeminiCliSetupAction"@),
            LocaleKey::CredsGeminiCliSetupHelp => (686, "CredsGeminiCliSetupHelp"@),
            LocaleKey::CredsVertexAiLabel => (687, "CredsVertexAiLabel"@),
            LocaleKey::CredsVertexAiHelperPrefix => (688, "CredsVertexAiHelperPrefix"@),
            LocaleKey::CredsVertexAiSetupAction => (689, "CredsVertexAiSetupAction"@),
            LocaleKey::CredsVertexAiSetupHelp => (690, "CredsVertexAiSetupHelp"@),
            LocaleKey::CredsJetBrainsLabel => (691, "CredsJetBrainsLabel"@),
            LocaleKey::CredsJetBrainsHelperDetectedPrefix => (692, "CredsJetBrainsHelperDetectedPrefix"@),
            LocaleKey::CredsJetBrainsHelperCustomPrefix => (693, "CredsJetBrainsHelperCustomPrefix"@),
            LocaleKey::CredsJetBrainsHelperMissing => (694, "CredsJetBrainsHelperMissing"@),
            LocaleKey::CredsJetBrainsCustomPathLabel => (695, "CredsJetBrainsCustomPathLabel"@),
            LocaleKey::CredsJetBrainsCustomPathPlaceholder => (696, "CredsJetBrainsCustomPathPlaceholder"@),
            LocaleKey::CredsJetBrainsSelectLabel => (697, "CredsJetBrainsSelectLabel"@),
            LocaleKey::CredsJetBrainsAutoDetectOption => (698, "CredsJetBrainsAutoDetectOption"@),
            LocaleKey::CredsKiroLabel => (699, "CredsKiroLabel"@),
            LocaleKey::CredsKiroHelperAvailablePrefix => (700, "CredsKiroHelperAvailablePrefix"@),
            LocaleKey::CredsKiroHelperMissing => (701, "CredsKiroHelperMissing"@),
            LocaleKey::OpenCodeGoWorkspaceTitle => (702, "OpenCodeGoWorkspaceTitle"@),
            LocaleKey::OpenCodeGoWorkspaceLabel => (703, "OpenCodeGoWorkspaceLabel"@),
            _ => self.entry_from_704(),
        }
    }

    /// The place and the name of a key at place 704 or beyond.
    pub open spec fn entry_from_704(self) -> (int, Seq<char>) {
        match self {
            LocaleKey::OpenCodeGoWorkspaceHelp => (704, "OpenCodeGoWorkspaceHelp"@),
            LocaleKey::OpenRouterManagementKeyTitle => (705, "OpenRouterManagementKeyTitle"@),
            LocaleKey::OpenRouterManagementKeyLabel => (706, "OpenRouterManagementKeyLabel"@),
            LocaleKey::OpenRouterManagementKeyHelp => (707, "OpenRouterManagementKeyHelp"@),
            LocaleKey::OpenRouterManagementKeyConfigured => (708, "OpenRouterManagementKeyConfigured"@),
            LocaleKey::CredsOpenAiHistoryHelp => (709, "CredsOpenAiHistoryHelp"@),
            LocaleKey::TokenAccountActive => (710, "TokenAccountActive"@),
            LocaleKey::TokenAccountSetActive => (711, "TokenAccountSetActive"@),
            LocaleKey::TokenAccountRemove => (712, "TokenAccountRemove"@),
            LocaleKey::TokenAccountAddButton => (713, "TokenAccountAddButton"@),
            LocaleKey::TokenAccountGithubLoginButton => (714, "TokenAccountGithubLoginButton"@),
            LocaleKey::TokenAccountEmpty => (715, "TokenAccountEmpty"@),
            LocaleKey::TokenAccountLabelPlaceholder => (716, "TokenAccountLabelPlaceholder"@),
            LocaleKey::TokenAccountProviderLabel => (717, "TokenAccountProviderLabel"@),
            LocaleKey::TokenAccountProviderPlaceholder => (718, "TokenAccountProviderPlaceholder"@),
            LocaleKey::TokenAccountAddedPrefix => (719, "TokenAccountAddedPrefix"@),
            LocaleKey::TokenAccountUsedPrefix => (720, "TokenAccountUsedPrefix"@),
            LocaleKey::TokenAccountTabHint => (721, "TokenAccountTabHint"@),
            LocaleKey::TokenAccountNoSupported => (722, "TokenAccountNoSupported"@),
            LocaleKey::TokenAccountInlineSummary => (723, "TokenAccountInlineSummary"@),
            LocaleKey::TrayPaceBadgeSlow => (724, "TrayPaceBadgeSlow"@),
            LocaleKey::TrayPaceBadgeSteady => (725, "TrayPaceBadgeSteady"@),
            LocaleKey::TrayPaceBadgeRacing => (726, "TrayPaceBadgeRacing"@),
            LocaleKey::TrayPaceBadgeBurning => (727, "TrayPaceBadgeBurning"@),
            LocaleKey::TrayResetsInLabel => (728, "TrayResetsInLabel"@),
            LocaleKey::TrayResetsDueNow => (729, "TrayResetsDueNow"@),
            LocaleKey::FloatBarSectionTitle => (730, "FloatBarSectionTitle"@),
            LocaleKey::FloatBarShowFloatingBar => (731, "FloatBarShowFloatingBar"@),
            LocaleKey::FloatBarShowFloatingBarHelper => (732, "FloatBarShowFloatingBarHelper"@),
            LocaleKey::FloatBarOrientation => (733, "FloatBarOrientation"@),
            LocaleKey::FloatBarOrientationHelper => (734, "FloatBarOrientationHelper"@),
            LocaleKey::FloatBarOrientationHorizontal => (735, "FloatBarOrientationHorizontal"@),
            LocaleKey::FloatBarOrientationVertical => (736, "FloatBarOrientationVertical"@),
            LocaleKey::FloatBarStyle => (737, "FloatBarStyle"@),
            LocaleKey::FloatBarStyleHelper => (738, "FloatBarStyleHelper"@),
            LocaleKey::FloatBarStyleFloating => (739, "FloatBarStyleFloating"@),
            LocaleKey::FloatBarStyleTaskbar => (740, "FloatBarStyleTaskbar"@),
            LocaleKey::FloatBarOpacity => (741, "FloatBarOpacity"@),
            LocaleKey::FloatBarOpacityHelper => (742, "FloatBarOpacityHelper"@),
            LocaleKey::FloatBarOpacityAriaLabel => (743, "FloatBarOpacityAriaLabel"@),
            LocaleKey::FloatBarSize => (744, "FloatBarSize"@),
            LocaleKey::FloatBarSizeHelper => (745, "FloatBarSizeHelper"@),
            LocaleKey::FloatBarSizeAriaLabel => (746, "FloatBarSizeAriaLabel"@),
            LocaleKey::FloatBarShowResetInline => (747, "FloatBarShowResetInline"@),
            LocaleKey::FloatBarShowResetInlineHelper => (748, "FloatBarShowResetInlineHelper"@),
            LocaleKey::FloatBarInvertColors => (749, "FloatBarInvertColors"@),
            LocaleKey::FloatBarInvertColorsHelper => (750, "FloatBarInvertColorsHelper"@),
            LocaleKey::FloatBarClickThrough => (751, "FloatBarClickThrough"@),
            LocaleKey::FloatBarClickThroughHelper => (752, "FloatBarClickThroughHelper"@),
            LocaleKey::AppName => (753, "AppName"@),
            LocaleKey::SettingsWindowTitle => (754, "SettingsWindowTitle"@),
            LocaleKey::ErrorPrefix => (755, "ErrorPrefix"@),
            LocaleKey::AboutLoading => (756, "AboutLoading"@),
            LocaleKey::AboutCheckForUpdates => (757, "AboutCheckForUpdates"@),
            LocaleKey::AboutChecking => (758, "AboutChecking"@),
            LocaleKey::AboutUpToDate => (759, "AboutUpToDate"@),
            LocaleKey::AboutCopyrightBefore => (760, "AboutCopyrightBefore"@),
            LocaleKey::AboutCopyrightAfter => (761, "AboutCopyrightAfter"@),
            LocaleKey::AboutLinkGitHub => (762, "AboutLinkGitHub"@),
            LocaleKey::AboutLinkWebsite => (763, "AboutLinkWebsite"@),
            LocaleKey::AboutLinkOriginalProject => (764, "AboutLinkOriginalProject"@),
            LocaleKey::DiagnosticsSectionHeading => (765, "DiagnosticsSectionHeading"@),
            LocaleKey::DiagnosticsCopyButton => (766, "DiagnosticsCopyButton"@),
            LocaleKey::DiagnosticsCopied => (767, "DiagnosticsCopied"@),
            _ => self.entry_from_768(),
        }
    }

    /// The place and the name of a key at place 768 or beyond.
    pub open spec fn entry_from_768(self) -> (int, Seq<char>) {
        match self {
            LocaleKey::DiagnosticsCopyFailed => (768, "DiagnosticsCopyFailed"@),
            LocaleKey::SavedCookiesHint => (769, "SavedCookiesHint"@),
            LocaleKey::ImportFromBrowserHint => (770, "ImportFromBrowserHint"@),
            LocaleKey::NoBrowsersDetectedHint => (771, "NoBrowsersDetectedHint"@),
            LocaleKey::CookieHeaderValuePlaceholder => (772, "CookieHeaderValuePlaceholder"@),
            LocaleKey::ApiKeyTitle => (773, "ApiKeyTitle"@),
            LocaleKey::ApiKeyNotSet => (774, "ApiKeyNotSet"@),
            LocaleKey::ApiKeyUpdate => (775, "ApiKeyUpdate"@),
            LocaleKey::ApiKeyLabelOptional => (776, "ApiKeyLabelOptional"@),
            LocaleKey::BootstrapFailed => (777, "BootstrapFailed"@),
            LocaleKey::LoadingShellContract => (778, "LoadingShellContract"@),
            LocaleKey::LoadingShellContractHint => (779, "LoadingShellContractHint"@),
            LocaleKey::RefreshIntervalManual => (780, "RefreshIntervalManual"@),
            LocaleKey::RefreshIntervalAdaptive => (781, "RefreshIntervalAdaptive"@),
            LocaleKey::RefreshInterval15Min => (782, "RefreshInterval15Min"@),
            LocaleKey::RefreshInterval30Min => (783, "RefreshInterval30Min"@),
            LocaleKey::RefreshInterval1Hour => (784, "RefreshInterval1Hour"@),
            LocaleKey::ProviderNameCodex => (785, "ProviderNameCodex"@),
            LocaleKey::ProviderNameClaude => (786, "ProviderNameClaude"@),
            LocaleKey::AgentSessionsProviderPi => (787, "AgentSessionsProviderPi"@),
            LocaleKey::AgentSessionsProviderOmp => (788, "AgentSessionsProviderOmp"@),
            LocaleKey::ProvidersAriaLabel => (789, "ProvidersAriaLabel"@),
            LocaleKey::WaitingForUsage => (790, "WaitingForUsage"@),
            LocaleKey::TokenAccountTokenPlaceholder => (791, "TokenAccountTokenPlaceholder"@),
            LocaleKey::ProviderPlanClaudeAi => (792, "ProviderPlanClaudeAi"@),
            LocaleKey::PaceChartAriaLabel => (793, "PaceChartAriaLabel"@),
            LocaleKey::PaceChartLegendAverageSoFar => (794, "PaceChartLegendAverageSoFar"@),
            LocaleKey::PaceChartLegendIdealPace => (795, "PaceChartLegendIdealPace"@),
            LocaleKey::PaceChartLegendProjection => (796, "PaceChartLegendProjection"@),
            LocaleKey::BarChartAriaLabel => (797, "BarChartAriaLabel"@),
            LocaleKey::StackedBarChartAriaLabel => (798, "StackedBarChartAriaLabel"@),
            LocaleKey::OpenAiAdminApiTitle => (799, "OpenAiAdminApiTitle"@),
            LocaleKey::OpenAiProjectIdLabel => (800, "OpenAiProjectIdLabel"@),
            LocaleKey::OpenAiProjectIdPlaceholder => (801, "OpenAiProjectIdPlaceholder"@),
            LocaleKey::OpenAiProjectIdHelp => (802, "OpenAiProjectIdHelp"@),
            LocaleKey::LiteLlmApiTitle => (803, "LiteLlmApiTitle"@),
            LocaleKey::LiteLlmBaseUrlLabel => (804, "LiteLlmBaseUrlLabel"@),
            LocaleKey::LiteLlmBaseUrlPlaceholder => (805, "LiteLlmBaseUrlPlaceholder"@),
            LocaleKey::LiteLlmBaseUrlHelp => (806, "LiteLlmBaseUrlHelp"@),
            LocaleKey::DevinApiTitle => (807, "DevinApiTitle"@),
            LocaleKey::DevinOrganizationLabel => (808, "DevinOrganizationLabel"@),
            LocaleKey::DevinOrganizationPlaceholder => (809, "DevinOrganizationPlaceholder"@),
            LocaleKey::DevinOrganizationHelp => (810, "DevinOrganizationHelp"@),
            LocaleKey::ZedApiTitle => (811, "ZedApiTitle"@),
            LocaleKey::ZedApiUrlLabel => (812, "ZedApiUrlLabel"@),
            LocaleKey::ZedApiUrlPlaceholder => (813, "ZedApiUrlPlaceholder"@),
            LocaleKey::ZedApiUrlHelp => (814, "ZedApiUrlHelp"@),
            LocaleKey::Sub2ApiTitle => (815, "Sub2ApiTitle"@),
            LocaleKey::Sub2ApiBaseUrlLabel => (816, "Sub2ApiBaseUrlLabel"@),
            LocaleKey::Sub2ApiBaseUrlPlaceholder => (817, "Sub2ApiBaseUrlPlaceholder"@),
            LocaleKey::Sub2ApiBaseUrlHelp => (818, "Sub2ApiBaseUrlHelp"@),
            LocaleKey::PromoteTrayIconLabel => (819, "PromoteTrayIconLabel"@),
            LocaleKey::PromoteTrayIconHelper => (820, "PromoteTrayIconHelper"@),
            LocaleKey::PromoteTrayIconUnsupportedHint => (821, "PromoteTrayIconUnsupportedHint"@),
            LocaleKey::MistralMonthlySpend => (822, "MistralMonthlySpend"@),
            LocaleKey::MistralMonthlySpendHelper => (823, "MistralMonthlySpendHelper"@),
            LocaleKey::CostSummaryDisplayStyle => (824, "CostSummaryDisplayStyle"@),
            LocaleKey::CostSummaryDisplayStyleHelper => (825, "CostSummaryDisplayStyleHelper"@),
            LocaleKey::CostSummaryStyleCompact => (826, "CostSummaryStyleCompact"@),
            LocaleKey::CostSummaryStyleDetailed => (827, "CostSummaryStyleDetailed"@),
            LocaleKey::CostSummaryStyleHidden => (828, "CostSummaryStyleHidden"@),
            LocaleKey::ProviderAccentColor => (829, "ProviderAccentColor"@),
            LocaleKey::ProviderAccentColorHelper => (830, "ProviderAccentColorHelper"@),
            LocaleKey::ProviderAccentColorReset => (831, "ProviderAccentColorReset"@),
            _ => (832, "ProviderAccentColorInvalid"@),
        }
    }

    /// The name under which a text is looked up.
    pub fn name(self) -> (r: &'static str)
        ensures
            r@ == self.label(),
    {
        self.name_from_0()
    }

    fn name_from_0(self) -> (r: &'static str)
        ensures
            r@ == self.entry_from_0().1,
    {
        match self {
            LocaleKey::TabGeneral => "TabGeneral",
            LocaleKey::TabProviders => "TabProviders",
            LocaleKey::TabNotifications => "TabNotifications",
            LocaleKey::TabMenuBar => "TabMenuBar",
            LocaleKey::TabMenu => "TabMenu",
            LocaleKey::TabApiKeys => "TabApiKeys",
            LocaleKey::TabCookies => "TabCookies",
            LocaleKey::TabUsageSpend => "TabUsageSpend",
            LocaleKey::TabAdvanced => "TabAdvanced",
            LocaleKey::TabAbout => "TabAbout",
            LocaleKey::TabShortcuts => "TabShortcuts",
            LocaleKey::InterfaceLanguage => "InterfaceLanguage",
            LocaleKey::StartupSettings => "StartupSettings",
            LocaleKey::StartAtLogin => "StartAtLogin",
            LocaleKey::StartMinimized => "StartMinimized",
            LocaleKey::StartAtLoginHelper => "StartAtLoginHelper",
            LocaleKey::StartMinimizedHelper => "StartMinimizedHelper",
            LocaleKey::ShowNotificationsHelper => "ShowNotificationsHelper",
            LocaleKey::SoundEnabledHelper => "SoundEnabledHelper",
            LocaleKey::HighUsageThresholdHelper => "HighUsageThresholdHelper",
            LocaleKey::CriticalUsageThresholdHelper => "CriticalUsageThresholdHelper",
            LocaleKey::ShowNotifications => "ShowNotifications",
            LocaleKey::SoundEnabled => "SoundEnabled",
            LocaleKey::NotificationSoundTheme => "NotificationSoundTheme",
            LocaleKey::NotificationSoundThemeHelper => "NotificationSoundThemeHelper",
            LocaleKey::NotificationSoundThemeWindows => "NotificationSoundThemeWindows",
            LocaleKey::NotificationSoundThemeCodexBar => "NotificationSoundThemeCodexBar",
            LocaleKey::NotificationSoundChooseFile => "NotificationSoundChooseFile",
            LocaleKey::NotificationSoundClearFile => "NotificationSoundClearFile",
            LocaleKey::NotificationSoundUsesTheme => "NotificationSoundUsesTheme",
            LocaleKey::NotificationSoundWaveFile => "NotificationSoundWaveFile",
            LocaleKey::NotificationSoundEventPredictiveWarning => "NotificationSoundEventPredictiveWarning",
            LocaleKey::NotificationSoundEventPredictiveWarningHelper => "NotificationSoundEventPredictiveWarningHelper",
            LocaleKey::NotificationSoundEventHighUsage => "NotificationSoundEventHighUsage",
            LocaleKey::NotificationSoundEventHighUsageHelper => "NotificationSoundEventHighUsageHelper",
            LocaleKey::NotificationSoundEventCriticalUsage => "NotificationSoundEventCriticalUsage",
            LocaleKey::NotificationSoundEventCriticalUsageHelper => "NotificationSoundEventCriticalUsageHelper",
            LocaleKey::NotificationSoundEventExhausted => "NotificationSoundEventExhausted",
            LocaleKey::NotificationSoundEventExhaustedHelper => "NotificationSoundEventExhaustedHelper",
            LocaleKey::NotificationSoundEventStatusIssue => "NotificationSoundEventStatusIssue",
            LocaleKey::NotificationSoundEventStatusIssueHelper => "NotificationSoundEventStatusIssueHelper",
            LocaleKey::NotificationSoundEventSessionDepleted => "NotificationSoundEventSessionDepleted",
            LocaleKey::NotificationSoundEventSessionDepletedHelper => "NotificationSoundEventSessionDepletedHelper",
            LocaleKey::NotificationSoundEventSessionRestored => "NotificationSoundEventSessionRestored",
            LocaleKey::NotificationSoundEventSessionRestoredHelper => "NotificationSoundEventSessionRestoredHelper",
            LocaleKey::HighUsageThreshold => "HighUsageThreshold",
            LocaleKey::HighUsageAlert => "HighUsageAlert",
            LocaleKey::CriticalUsageThreshold => "CriticalUsageThreshold",
            LocaleKey::CriticalUsageAlert => "CriticalUsageAlert",
            LocaleKey::PredictivePaceWarnings => "PredictivePaceWarnings",
            LocaleKey::PredictivePaceWarningsHelper => "PredictivePaceWarningsHelper",
            LocaleKey::PredictivePaceWarningTitle => "PredictivePaceWarningTitle",
            LocaleKey::PredictivePaceWarningBody => "PredictivePaceWarningBody",
            LocaleKey::UsageDisplay => "UsageDisplay",
            LocaleKey::ShowUsageAsUsed => "ShowUsageAsUsed",
            LocaleKey::ShowUsageAsUsedHelper => "ShowUsageAsUsedHelper",
            LocaleKey::ResetTimeRelative => "ResetTimeRelative",
            LocaleKey::ResetTimeRelativeHelper => "ResetTimeRelativeHelper",
            LocaleKey::ShowResetWhenExhausted => "ShowResetWhenExhausted",
            LocaleKey::ShowResetWhenExhaustedHelper => "ShowResetWhenExhaustedHelper",
            LocaleKey::ShowPace => "ShowPace",
            LocaleKey::ShowPaceHelper => "ShowPaceHelper",
            LocaleKey::TrayIcon => "TrayIcon",
            LocaleKey::MergeTrayIcons => "MergeTrayIcons",
            _ => self.name_from_64(),
        }
    }

    fn name_from_64(self) -> (r: &'static str)
        ensures
            r@ == self.entry_from_64().1,
    {
        match self {
            LocaleKey::MergeTrayIconsHelper => "MergeTrayIconsHelper",
            LocaleKey::PerProviderTrayIcons => "PerProviderTrayIcons",
            LocaleKey::PerProviderTrayIconsHelper => "PerProviderTrayIconsHelper",
            LocaleKey::ProviderEnabled => "ProviderEnabled",
            LocaleKey::ProviderDisabled => "ProviderDisabled",
            LocaleKey::ProviderInfo => "ProviderInfo",
            LocaleKey::ProviderUsage => "ProviderUsage",
            LocaleKey::PanelUsageDetails => "PanelUsageDetails",
            LocaleKey::AuthType => "AuthType",
            LocaleKey::DataSource => "DataSource",
            LocaleKey::ProviderNotDetected => "ProviderNotDetected",
            LocaleKey::ProviderLastFetchFailed => "ProviderLastFetchFailed",
            LocaleKey::ProviderUsageNotFetchedYet => "ProviderUsageNotFetchedYet",
            LocaleKey::ProviderNotFetchedYetTitle => "ProviderNotFetchedYetTitle",
            LocaleKey::ProviderDisabledNoRecentData => "ProviderDisabledNoRecentData",
            LocaleKey::ProviderSourceAutoShort => "ProviderSourceAutoShort",
            LocaleKey::ProviderSourceWebShort => "ProviderSourceWebShort",
            LocaleKey::ProviderSourceCliShort => "ProviderSourceCliShort",
            LocaleKey::ProviderSourceOauthShort => "ProviderSourceOauthShort",
            LocaleKey::ProviderSourceApiShort => "ProviderSourceApiShort",
            LocaleKey::ProviderSourceGithubApiShort => "ProviderSourceGithubApiShort",
            LocaleKey::ProviderSourceLocalShort => "ProviderSourceLocalShort",
            LocaleKey::ProviderSourceKiroEnvShort => "ProviderSourceKiroEnvShort",
            LocaleKey::WayfinderGatewayTitle => "WayfinderGatewayTitle",
            LocaleKey::WayfinderGatewayLabel => "WayfinderGatewayLabel",
            LocaleKey::WayfinderGatewayHelp => "WayfinderGatewayHelp",
            LocaleKey::WayfinderGatewayStatus => "WayfinderGatewayStatus",
            LocaleKey::WayfinderModels => "WayfinderModels",
            LocaleKey::WayfinderRequests => "WayfinderRequests",
            LocaleKey::WayfinderTokens => "WayfinderTokens",
            LocaleKey::WayfinderSaved => "WayfinderSaved",
            LocaleKey::WayfinderOffline => "WayfinderOffline",
            LocaleKey::WayfinderDryRun => "WayfinderDryRun",
            LocaleKey::WayfinderMissingKeys => "WayfinderMissingKeys",
            LocaleKey::TrackingItem => "TrackingItem",
            LocaleKey::MainWindowLiveUsageData => "MainWindowLiveUsageData",
            LocaleKey::StartTrackingUsage => "StartTrackingUsage",
            LocaleKey::ClickTrayIconForMetrics => "ClickTrayIconForMetrics",
            LocaleKey::BrowserCookieImport => "BrowserCookieImport",
            LocaleKey::ImportFromBrowser => "ImportFromBrowser",
            LocaleKey::NoCookiesFoundInBrowser => "NoCookiesFoundInBrowser",
            LocaleKey::SelectBrowser => "SelectBrowser",
            LocaleKey::ImportCookies => "ImportCookies",
            LocaleKey::ImportSuccess => "ImportSuccess",
            LocaleKey::ImportFailed => "ImportFailed",
            LocaleKey::SaveFailed => "SaveFailed",
            LocaleKey::CookiesAutoImport => "CookiesAutoImport",
            LocaleKey::QuickActions => "QuickActions",
            LocaleKey::OpenProviderDashboard => "OpenProviderDashboard",
            LocaleKey::OllamaNoDashboard => "OllamaNoDashboard",
            LocaleKey::ApiKeysTitle => "ApiKeysTitle",
            LocaleKey::ApiKeysDescription => "ApiKeysDescription",
            LocaleKey::AddKey => "AddKey",
            LocaleKey::KeySet => "KeySet",
            LocaleKey::KeyRequired => "KeyRequired",
            LocaleKey::Remove => "Remove",
            LocaleKey::GetKey => "GetKey",
            LocaleKey::SavedCookies => "SavedCookies",
            LocaleKey::AddManualCookie => "AddManualCookie",
            LocaleKey::CookieHeader => "CookieHeader",
            LocaleKey::PasteHere => "PasteHere",
            LocaleKey::DeleteCookie => "DeleteCookie",
            LocaleKey::CookieSaved => "CookieSaved",
            LocaleKey::CookieDeleted => "CookieDeleted",
            _ => self.name_from_128(),
        }
    }

    fn name_from_128(self) -> (r: &'static str)
        ensures
            r@ == self.entry_from_128().1,
    {
        match self {
            LocaleKey::RefreshSettings => "RefreshSettings",
            LocaleKey::Animations => "Animations",
            LocaleKey::MenuBar => "MenuBar",
            LocaleKey::Fun => "Fun",
            LocaleKey::GlobalShortcut => "GlobalShortcut",
            LocaleKey::Privacy => "Privacy",
            LocaleKey::Updates => "Updates",
            LocaleKey::UpdateChannel => "UpdateChannel",
            LocaleKey::UpdateChannelStable => "UpdateChannelStable",
            LocaleKey::UpdateChannelBeta => "UpdateChannelBeta",
            LocaleKey::Never => "Never",
            LocaleKey::LastUpdated => "LastUpdated",
            LocaleKey::NeverUpdated => "NeverUpdated",
            LocaleKey::MinutesAgo => "MinutesAgo",
            LocaleKey::HoursAgo => "HoursAgo",
            LocaleKey::DaysAgo => "DaysAgo",
            LocaleKey::BuiltWithRust => "BuiltWithRust",
            LocaleKey::OriginalMacOSVersion => "OriginalMacOSVersion",
            LocaleKey::Links => "Links",
            LocaleKey::BuildInfo => "BuildInfo",
            LocaleKey::EnabledProviders => "EnabledProviders",
            LocaleKey::Appearance => "Appearance",
            LocaleKey::ThemeSelection => "ThemeSelection",
            LocaleKey::LightMode => "LightMode",
            LocaleKey::DarkMode => "DarkMode",
            LocaleKey::AboutTitle => "AboutTitle",
            LocaleKey::Version => "Version",
            LocaleKey::ActionRefreshAll => "ActionRefreshAll",
            LocaleKey::ActionSettings => "ActionSettings",
            LocaleKey::ActionClose => "ActionClose",
            LocaleKey::ProviderAccount => "ProviderAccount",
            LocaleKey::ProviderSession => "ProviderSession",
            LocaleKey::ProviderWeekly => "ProviderWeekly",
            LocaleKey::ProviderMonthly => "ProviderMonthly",
            LocaleKey::DeepSeekPricingTitle => "DeepSeekPricingTitle",
            LocaleKey::DeepSeekPricingStandard => "DeepSeekPricingStandard",
            LocaleKey::DeepSeekPricingPeak => "DeepSeekPricingPeak",
            LocaleKey::DeepSeekPricingOffPeak => "DeepSeekPricingOffPeak",
            LocaleKey::DeepSeekPricingCurrent => "DeepSeekPricingCurrent",
            LocaleKey::DeepSeekPricingNext => "DeepSeekPricingNext",
            LocaleKey::DeepSeekPricingEffective => "DeepSeekPricingEffective",
            LocaleKey::DeepSeekPricingAdvice => "DeepSeekPricingAdvice",
            LocaleKey::ProviderModel => "ProviderModel",
            LocaleKey::ProviderPlan => "ProviderPlan",
            LocaleKey::ProviderNextReset => "ProviderNextReset",
            LocaleKey::ProviderNoRecentUsage => "ProviderNoRecentUsage",
            LocaleKey::ProviderNotSignedIn => "ProviderNotSignedIn",
            LocaleKey::SummaryTab => "SummaryTab",
            LocaleKey::StateLoadingProviders => "StateLoadingProviders",
            LocaleKey::StateNoProviderData => "StateNoProviderData",
            LocaleKey::StateNoProviderSelected => "StateNoProviderSelected",
            LocaleKey::StateSummaryRefreshPending => "StateSummaryRefreshPending",
            LocaleKey::StateError => "StateError",
            LocaleKey::StateRetry => "StateRetry",
            LocaleKey::StateDownload => "StateDownload",
            LocaleKey::StateRestartAndUpdate => "StateRestartAndUpdate",
            LocaleKey::CreditsTitle => "CreditsTitle",
            LocaleKey::UpdateRestartAndUpdate => "UpdateRestartAndUpdate",
            LocaleKey::UpdateRetry => "UpdateRetry",
            LocaleKey::UpdateDownload => "UpdateDownload",
            LocaleKey::UpdateDownloading => "UpdateDownloading",
            LocaleKey::UpdateReady => "UpdateReady",
            LocaleKey::UpdateFailed => "UpdateFailed",
            LocaleKey::ButtonOpenProviderSettings => "ButtonOpenProviderSettings",
            _ => self.name_from_192(),
        }
    }

    fn name_from_192(self) -> (r: &'static str)
        ensures
            r@ == self.entry_from_192().1,
    {
        match self {
            LocaleKey::MenuSettings => "MenuSettings",
            LocaleKey::MenuAbout => "MenuAbout",
            LocaleKey::MenuQuit => "MenuQuit",
            LocaleKey::StatusJustUpdated => "StatusJustUpdated",
            LocaleKey::StatusUnableToGetUsage => "StatusUnableToGetUsage",
            LocaleKey::ActionRefresh => "ActionRefresh",
            LocaleKey::ActionSwitchAccount => "ActionSwitchAccount",
            LocaleKey::ActionUsageDashboard => "ActionUsageDashboard",
            LocaleKey::ActionStatusPage => "ActionStatusPage",
            LocaleKey::ActionCopyError => "ActionCopyError",
            LocaleKey::ActionBuyCredits => "ActionBuyCredits",
            LocaleKey::PaceOnTrack => "PaceOnTrack",
            LocaleKey::PaceBehind => "PaceBehind",
            LocaleKey::MetricResetsIn => "MetricResetsIn",
            LocaleKey::SectionUsageBreakdown => "SectionUsageBreakdown",
            LocaleKey::SectionCost => "SectionCost",
            LocaleKey::ResetInProgress => "ResetInProgress",
            LocaleKey::TomorrowAt => "TomorrowAt",
            LocaleKey::UsedPercent => "UsedPercent",
            LocaleKey::RemainingPercent => "RemainingPercent",
            LocaleKey::RemainingAmount => "RemainingAmount",
            LocaleKey::Tokens1K => "Tokens1K",
            LocaleKey::TodayCost => "TodayCost",
            LocaleKey::Last30DaysCost => "Last30DaysCost",
            LocaleKey::StatusLabel => "StatusLabel",
            LocaleKey::TrayOpenCodexBar => "TrayOpenCodexBar",
            LocaleKey::TrayPopOutDashboard => "TrayPopOutDashboard",
            LocaleKey::TrayShowWindow => "TrayShowWindow",
            LocaleKey::TrayShowFloatBar => "TrayShowFloatBar",
            LocaleKey::TrayRefreshAll => "TrayRefreshAll",
            LocaleKey::TrayProviders => "TrayProviders",
            LocaleKey::TraySettings => "TraySettings",
            LocaleKey::TrayCheckForUpdates => "TrayCheckForUpdates",
            LocaleKey::TrayQuit => "TrayQuit",
            LocaleKey::TrayLoading => "TrayLoading",
            LocaleKey::TrayNoProviders => "TrayNoProviders",
            LocaleKey::TraySessionPercent => "TraySessionPercent",
            LocaleKey::TrayWeeklyPercent => "TrayWeeklyPercent",
            LocaleKey::TrayStatusError => "TrayStatusError",
            LocaleKey::TrayStatusStale => "TrayStatusStale",
            LocaleKey::TrayStatusIncident => "TrayStatusIncident",
            LocaleKey::TrayStatusPartial => "TrayStatusPartial",
            LocaleKey::TrayWeeklyExhausted => "TrayWeeklyExhausted",
            LocaleKey::TrayCreditsRemaining => "TrayCreditsRemaining",
            LocaleKey::TrayStatusRowLoading => "TrayStatusRowLoading",
            LocaleKey::TrayStatusRowError => "TrayStatusRowError",
            LocaleKey::TrayCreditsRow => "TrayCreditsRow",
            LocaleKey::TrayProviderPopOut => "TrayProviderPopOut",
            LocaleKey::TrayProviderRefresh => "TrayProviderRefresh",
            LocaleKey::TrayProviderSettings => "TrayProviderSettings",
            LocaleKey::TrayProviderQuit => "TrayProviderQuit",
            LocaleKey::State => "State",
            LocaleKey::Source => "Source",
            LocaleKey::Updated => "Updated",
            LocaleKey::UpdatedJustNow => "UpdatedJustNow",
            LocaleKey::UpdatedMinutesAgo => "UpdatedMinutesAgo",
            LocaleKey::UpdatedHoursAgo => "UpdatedHoursAgo",
            LocaleKey::UpdatedDaysAgo => "UpdatedDaysAgo",
            LocaleKey::Status => "Status",
            LocaleKey::AllSystemsOperational => "AllSystemsOperational",
            LocaleKey::Plan => "Plan",
            LocaleKey::Account => "Account",
            LocaleKey::ProviderSessionLabel => "ProviderSessionLabel",
            LocaleKey::ProviderWeeklyLabel => "ProviderWeeklyLabel",
            _ => self.name_from_256(),
        }
    }

    fn name_from_256(self) -> (r: &'static str)
        ensures
            r@ == self.entry_from_256().1,
    {
        match self {
            LocaleKey::ProviderCodeReviewLabel => "ProviderCodeReviewLabel",
            LocaleKey::ResetsInShort => "ResetsInShort",
            LocaleKey::ResetsInDaysHours => "ResetsInDaysHours",
            LocaleKey::ResetsInHoursMinutes => "ResetsInHoursMinutes",
            LocaleKey::ResetsInMinutes => "ResetsInMinutes",
            LocaleKey::NextExpiresInDaysHours => "NextExpiresInDaysHours",
            LocaleKey::NextExpiresInHoursMinutes => "NextExpiresInHoursMinutes",
            LocaleKey::NextExpiresInMinutes => "NextExpiresInMinutes",
            LocaleKey::NextExpiresDueNow => "NextExpiresDueNow",
            LocaleKey::TrayDisplayTitle => "TrayDisplayTitle",
            LocaleKey::ShowInTray => "ShowInTray",
            LocaleKey::CreditsLabel => "CreditsLabel",
            LocaleKey::CreditsLeft => "CreditsLeft",
            LocaleKey::CostTitle => "CostTitle",
            LocaleKey::TodayCostFull => "TodayCostFull",
            LocaleKey::Last30DaysCostFull => "Last30DaysCostFull",
            LocaleKey::ProviderSettingsTitle => "ProviderSettingsTitle",
            LocaleKey::ProviderAccountsTitle => "ProviderAccountsTitle",
            LocaleKey::ProviderOptionsTitle => "ProviderOptionsTitle",
            LocaleKey::MenuBarMetric => "MenuBarMetric",
            LocaleKey::MenuBarMetricHelper => "MenuBarMetricHelper",
            LocaleKey::UsageSource => "UsageSource",
            LocaleKey::ProviderNoCodexAccountsDetected => "ProviderNoCodexAccountsDetected",
            LocaleKey::ProviderCodexAutoImportHelp => "ProviderCodexAutoImportHelp",
            LocaleKey::ProviderCodexHistoryHelp => "ProviderCodexHistoryHelp",
            LocaleKey::ProviderOpenAiCookies => "ProviderOpenAiCookies",
            LocaleKey::ProviderHistoricalTracking => "ProviderHistoricalTracking",
            LocaleKey::ProviderOpenAiWebExtras => "ProviderOpenAiWebExtras",
            LocaleKey::ProviderOpenAiWebExtrasHelp => "ProviderOpenAiWebExtrasHelp",
            LocaleKey::ProviderCodexCreditsUnavailable => "ProviderCodexCreditsUnavailable",
            LocaleKey::ProviderCodexLastFetchFailedTitle => "ProviderCodexLastFetchFailedTitle",
            LocaleKey::ProviderCodexNotRunningHelp => "ProviderCodexNotRunningHelp",
            LocaleKey::ProviderCookieSource => "ProviderCookieSource",
            LocaleKey::CookieSourceManual => "CookieSourceManual",
            LocaleKey::ProviderRegion => "ProviderRegion",
            LocaleKey::ProviderClaudeCookies => "ProviderClaudeCookies",
            LocaleKey::ProviderClaudeCookiesHelp => "ProviderClaudeCookiesHelp",
            LocaleKey::ProviderClaudeAvoidKeychainPrompts => "ProviderClaudeAvoidKeychainPrompts",
            LocaleKey::ProviderClaudeAvoidKeychainPromptsHelp => "ProviderClaudeAvoidKeychainPromptsHelp",
            LocaleKey::ProviderClaudeDailyRoutinesUsage => "ProviderClaudeDailyRoutinesUsage",
            LocaleKey::ProviderClaudeDailyRoutinesUsageHelp => "ProviderClaudeDailyRoutinesUsageHelp",
            LocaleKey::ProviderClaudeAllowReadingClaudeCodeCredentials => "ProviderClaudeAllowReadingClaudeCodeCredentials",
            LocaleKey::ProviderClaudeAllowReadingClaudeCodeCredentialsHelp => "ProviderClaudeAllowReadingClaudeCodeCredentialsHelp",
            LocaleKey::ProviderCodexSparkUsage => "ProviderCodexSparkUsage",
            LocaleKey::ProviderCodexSparkUsageHelp => "ProviderCodexSparkUsageHelp",
            LocaleKey::CodexAccountsTitle => "CodexAccountsTitle",
            LocaleKey::ClaudeAccountsTitle => "ClaudeAccountsTitle",
            LocaleKey::ClaudeAccountsHint => "ClaudeAccountsHint",
            LocaleKey::ClaudeAccountsEmpty => "ClaudeAccountsEmpty",
            LocaleKey::ClaudeAccountsSaveCurrent => "ClaudeAccountsSaveCurrent",
            LocaleKey::ClaudeAccountsCancelLogin => "ClaudeAccountsCancelLogin",
            LocaleKey::ClaudeAccountsSigningIn => "ClaudeAccountsSigningIn",
            LocaleKey::ClaudeAccountsSwitched => "ClaudeAccountsSwitched",
            LocaleKey::ClaudeAccountsAdded => "ClaudeAccountsAdded",
            LocaleKey::CodexAccountsHint => "CodexAccountsHint",
            LocaleKey::CodexAccountsAddButton => "CodexAccountsAddButton",
            LocaleKey::CodexAccountsSwitchButton => "CodexAccountsSwitchButton",
            LocaleKey::CodexAccountsFetchButton => "CodexAccountsFetchButton",
            LocaleKey::CodexAccountsRemoveButton => "CodexAccountsRemoveButton",
            LocaleKey::CodexAccountsEmpty => "CodexAccountsEmpty",
            LocaleKey::CodexAccountsSourceAmbient => "CodexAccountsSourceAmbient",
            LocaleKey::CodexAccountsSourceManaged => "CodexAccountsSourceManaged",
            LocaleKey::CodexAccountsUsageUnavailable => "CodexAccountsUsageUnavailable",
            LocaleKey::CodexSwitchSuccess => "CodexSwitchSuccess",
            _ => self.name_from_320(),
        }
    }

    fn name_from_320(self) -> (r: &'static str)
        ensures
            r@ == self.entry_from_320().1,
    {
        match self {
            LocaleKey::CodexSwitchRestartPrompt => "CodexSwitchRestartPrompt",
            LocaleKey::CodexAccountsRestartDesktop => "CodexAccountsRestartDesktop",
            LocaleKey::ProviderCursorCookieSourceHelp => "ProviderCursorCookieSourceHelp",
            LocaleKey::ProviderCursorCreditsHelp => "ProviderCursorCreditsHelp",
            LocaleKey::AutoFallbackHelp => "AutoFallbackHelp",
            LocaleKey::ProviderSourceOauthWeb => "ProviderSourceOauthWeb",
            LocaleKey::Automatic => "Automatic",
            LocaleKey::Average => "Average",
            LocaleKey::ExtraUsage => "ExtraUsage",
            LocaleKey::OAuth => "OAuth",
            LocaleKey::Api => "Api",
            LocaleKey::Web => "Web",
            LocaleKey::PrivacyTitle => "PrivacyTitle",
            LocaleKey::HidePersonalInfo => "HidePersonalInfo",
            LocaleKey::HidePersonalInfoHelper => "HidePersonalInfoHelper",
            LocaleKey::SectionLocalIntegrations => "SectionLocalIntegrations",
            LocaleKey::PowerToysPipeLabel => "PowerToysPipeLabel",
            LocaleKey::PowerToysPipeHelper => "PowerToysPipeHelper",
            LocaleKey::HooksTitle => "HooksTitle",
            LocaleKey::HooksCaption => "HooksCaption",
            LocaleKey::HooksEnableLabel => "HooksEnableLabel",
            LocaleKey::HooksEnableHelper => "HooksEnableHelper",
            LocaleKey::HooksConfigPathHint => "HooksConfigPathHint",
            LocaleKey::NetworkProxyTitle => "NetworkProxyTitle",
            LocaleKey::NetworkProxyCaption => "NetworkProxyCaption",
            LocaleKey::NetworkProxyEnableLabel => "NetworkProxyEnableLabel",
            LocaleKey::NetworkProxyEnableHelper => "NetworkProxyEnableHelper",
            LocaleKey::NetworkProxyUrlLabel => "NetworkProxyUrlLabel",
            LocaleKey::NetworkProxyUrlHelper => "NetworkProxyUrlHelper",
            LocaleKey::NetworkProxyUserLabel => "NetworkProxyUserLabel",
            LocaleKey::NetworkProxyPasswordLabel => "NetworkProxyPasswordLabel",
            LocaleKey::NetworkProxyPasswordHelper => "NetworkProxyPasswordHelper",
            LocaleKey::NetworkProxyInvalidUrl => "NetworkProxyInvalidUrl",
            LocaleKey::UsageSpendTitle => "UsageSpendTitle",
            LocaleKey::UsageSpendCaption => "UsageSpendCaption",
            LocaleKey::UsageSpendModels => "UsageSpendModels",
            LocaleKey::UsageSpendAllTime => "UsageSpendAllTime",
            LocaleKey::UsageSpendOpenCodexImport => "UsageSpendOpenCodexImport",
            LocaleKey::UsageSpendHideNativeCodex => "UsageSpendHideNativeCodex",
            LocaleKey::UsageSpendSpend => "UsageSpendSpend",
            LocaleKey::UsageSpendPriceCoverage => "UsageSpendPriceCoverage",
            LocaleKey::UsageSpendConversations => "UsageSpendConversations",
            LocaleKey::UsageSpendTokenMix => "UsageSpendTokenMix",
            LocaleKey::UsageSpendKnownZero => "UsageSpendKnownZero",
            LocaleKey::UsageSpendApiEstimate => "UsageSpendApiEstimate",
            LocaleKey::UsageSpendVendorMetered => "UsageSpendVendorMetered",
            LocaleKey::UsageSpendMixedSources => "UsageSpendMixedSources",
            LocaleKey::UsageSpendUnknown => "UsageSpendUnknown",
            LocaleKey::UsageSpendUnpriced => "UsageSpendUnpriced",
            LocaleKey::UsageSpendHistoryCovered => "UsageSpendHistoryCovered",
            LocaleKey::UsageSpendPartialHistory => "UsageSpendPartialHistory",
            LocaleKey::UsageSpendCustomPricingActive => "UsageSpendCustomPricingActive",
            LocaleKey::UsageSpendDefaultPricing => "UsageSpendDefaultPricing",
            LocaleKey::UsageSpendHourlyActivity => "UsageSpendHourlyActivity",
            LocaleKey::UsageSpendRequests => "UsageSpendRequests",
            LocaleKey::UsageSpendTokens => "UsageSpendTokens",
            LocaleKey::UsageSpendAllTimeHistory => "UsageSpendAllTimeHistory",
            LocaleKey::UsageSpendCustomPricing => "UsageSpendCustomPricing",
            LocaleKey::OverviewSpendTitle => "OverviewSpendTitle",
            LocaleKey::OverviewSpendProviderCoverage => "OverviewSpendProviderCoverage",
            LocaleKey::OverviewSpendEstimate => "OverviewSpendEstimate",
            LocaleKey::UsageSpendProjects => "UsageSpendProjects",
            LocaleKey::UsageSpendShowAll => "UsageSpendShowAll",
            LocaleKey::UsageSpendShowLess => "UsageSpendShowLess",
            _ => self.name_from_384(),
        }
    }

    fn name_from_384(self) -> (r: &'static str)
        ensures
            r@ == self.entry_from_384().1,
    {
        match self {
            LocaleKey::UsageSpendNoModels => "UsageSpendNoModels",
            LocaleKey::UsageSpendNoProjects => "UsageSpendNoProjects",
            LocaleKey::UsageSpendRefresh => "UsageSpendRefresh",
            LocaleKey::UsageSpendLoading => "UsageSpendLoading",
            LocaleKey::UsageSpendRefreshing => "UsageSpendRefreshing",
            LocaleKey::UsageSpendEmpty => "UsageSpendEmpty",
            LocaleKey::UsageSpendColProvider => "UsageSpendColProvider",
            LocaleKey::UsageSpendCol7d => "UsageSpendCol7d",
            LocaleKey::UsageSpendCol30d => "UsageSpendCol30d",
            LocaleKey::UsageSpendColCurrency => "UsageSpendColCurrency",
            LocaleKey::UsageSpendColSource => "UsageSpendColSource",
            LocaleKey::UsageSpendShare => "UsageSpendShare",
            LocaleKey::UsageSpendCopyJson => "UsageSpendCopyJson",
            LocaleKey::UsageSpendSaveJson => "UsageSpendSaveJson",
            LocaleKey::UsageSpendShareEmpty => "UsageSpendShareEmpty",
            LocaleKey::UsageSpendShareFailed => "UsageSpendShareFailed",
            LocaleKey::AgentSessionsTitle => "AgentSessionsTitle",
            LocaleKey::AgentSessionsEnableLabel => "AgentSessionsEnableLabel",
            LocaleKey::AgentSessionsEnableHelper => "AgentSessionsEnableHelper",
            LocaleKey::AgentSessionsSshHostsLabel => "AgentSessionsSshHostsLabel",
            LocaleKey::AgentSessionsSshHostsHelper => "AgentSessionsSshHostsHelper",
            LocaleKey::AgentSessionsLoading => "AgentSessionsLoading",
            LocaleKey::AgentSessionsEmpty => "AgentSessionsEmpty",
            LocaleKey::UpdatesTitle => "UpdatesTitle",
            LocaleKey::UpdateChannelChoice => "UpdateChannelChoice",
            LocaleKey::UpdateChannelChoiceHelper => "UpdateChannelChoiceHelper",
            LocaleKey::AutoDownloadUpdates => "AutoDownloadUpdates",
            LocaleKey::AutoDownloadUpdatesHelper => "AutoDownloadUpdatesHelper",
            LocaleKey::InstallUpdatesOnQuit => "InstallUpdatesOnQuit",
            LocaleKey::InstallUpdatesOnQuitHelper => "InstallUpdatesOnQuitHelper",
            LocaleKey::KeyboardShortcutsTitle => "KeyboardShortcutsTitle",
            LocaleKey::GlobalShortcutLabel => "GlobalShortcutLabel",
            LocaleKey::GlobalShortcutHelper => "GlobalShortcutHelper",
            LocaleKey::ShortcutFormatHint => "ShortcutFormatHint",
            LocaleKey::Saved => "Saved",
            LocaleKey::InvalidFormat => "InvalidFormat",
            LocaleKey::ShortcutHintPlaceholder => "ShortcutHintPlaceholder",
            LocaleKey::SelectProvider => "SelectProvider",
            LocaleKey::RefreshInterval30Sec => "RefreshInterval30Sec",
            LocaleKey::RefreshInterval1Min => "RefreshInterval1Min",
            LocaleKey::RefreshInterval5Min => "RefreshInterval5Min",
            LocaleKey::RefreshInterval10Min => "RefreshInterval10Min",
            LocaleKey::BrowserCookiesTitle => "BrowserCookiesTitle",
            LocaleKey::CookieImport => "CookieImport",
            LocaleKey::Provider => "Provider",
            LocaleKey::SelectPlaceholder => "SelectPlaceholder",
            LocaleKey::AutoRefreshInterval => "AutoRefreshInterval",
            LocaleKey::AboutDescription => "AboutDescription",
            LocaleKey::AboutDescriptionLine2 => "AboutDescriptionLine2",
            LocaleKey::ViewOnGitHub => "ViewOnGitHub",
            LocaleKey::SubmitIssue => "SubmitIssue",
            LocaleKey::MaintainedBy => "MaintainedBy",
            LocaleKey::CommitLabel => "CommitLabel",
            LocaleKey::BuildDateLabel => "BuildDateLabel",
            LocaleKey::Save => "Save",
            LocaleKey::Cancel => "Cancel",
            LocaleKey::Label => "Label",
            LocaleKey::Token => "Token",
            LocaleKey::AddAccount => "AddAccount",
            LocaleKey::AccountAdded => "AccountAdded",
            LocaleKey::AccountRemoved => "AccountRemoved",
            LocaleKey::AccountSwitched => "AccountSwitched",
            LocaleKey::AccountLabelHint => "AccountLabelHint",
            LocaleKey::EnterApiKeyFor => "EnterApiKeyFor",
            _ => self.name_from_448(),
        }
    }

    fn name_from_448(self) -> (r: &'static str)
        ensures
            r@ == self.entry_from_448().1,
    {
        match self {
            LocaleKey::PasteApiKeyHere => "PasteApiKeyHere",
            LocaleKey::ApiKeySaved => "ApiKeySaved",
            LocaleKey::ApiKeyRemoved => "ApiKeyRemoved",
            LocaleKey::EnvironmentVariable => "EnvironmentVariable",
            LocaleKey::CookieSavedForProvider => "CookieSavedForProvider",
            LocaleKey::CookieRemovedForProvider => "CookieRemovedForProvider",
            LocaleKey::ShowUsedPercent => "ShowUsedPercent",
            LocaleKey::ShowRemainingPercent => "ShowRemainingPercent",
            LocaleKey::UpdateAvailableMessage => "UpdateAvailableMessage",
            LocaleKey::UpdateReadyMessage => "UpdateReadyMessage",
            LocaleKey::UpdateFailedMessage => "UpdateFailedMessage",
            LocaleKey::UpdateDownloadingMessage => "UpdateDownloadingMessage",
            LocaleKey::TabTokenAccounts => "TabTokenAccounts",
            LocaleKey::SectionRefresh => "SectionRefresh",
            LocaleKey::SectionNotifications => "SectionNotifications",
            LocaleKey::SectionUsageThresholds => "SectionUsageThresholds",
            LocaleKey::SectionKeyboard => "SectionKeyboard",
            LocaleKey::SectionUsageRendering => "SectionUsageRendering",
            LocaleKey::SectionTime => "SectionTime",
            LocaleKey::SectionLanguage => "SectionLanguage",
            LocaleKey::SectionCredentialsSecurity => "SectionCredentialsSecurity",
            LocaleKey::SectionDebug => "SectionDebug",
            LocaleKey::SectionApiKeys => "SectionApiKeys",
            LocaleKey::SectionSavedCookies => "SectionSavedCookies",
            LocaleKey::SectionImportFromBrowser => "SectionImportFromBrowser",
            LocaleKey::SectionAddCookieManually => "SectionAddCookieManually",
            LocaleKey::SectionTokenAccounts => "SectionTokenAccounts",
            LocaleKey::SectionSavedAccounts => "SectionSavedAccounts",
            LocaleKey::SectionAddAccount => "SectionAddAccount",
            LocaleKey::RefreshIntervalLabel => "RefreshIntervalLabel",
            LocaleKey::RefreshIntervalHelper => "RefreshIntervalHelper",
            LocaleKey::RefreshAllProvidersOnMenuOpen => "RefreshAllProvidersOnMenuOpen",
            LocaleKey::RefreshAllProvidersOnMenuOpenHelper => "RefreshAllProvidersOnMenuOpenHelper",
            LocaleKey::LowPowerMode => "LowPowerMode",
            LocaleKey::LowPowerModeHelper => "LowPowerModeHelper",
            LocaleKey::LowPowerModeOff => "LowPowerModeOff",
            LocaleKey::LowPowerModeOn => "LowPowerModeOn",
            LocaleKey::LowPowerModeAutomatic => "LowPowerModeAutomatic",
            LocaleKey::HighUsageWarningHelper => "HighUsageWarningHelper",
            LocaleKey::CriticalUsageWarningHelper => "CriticalUsageWarningHelper",
            LocaleKey::GlobalShortcutFieldLabel => "GlobalShortcutFieldLabel",
            LocaleKey::GlobalShortcutToggleHelper => "GlobalShortcutToggleHelper",
            LocaleKey::ShortcutRecordButton => "ShortcutRecordButton",
            LocaleKey::ShortcutRecordingLabel => "ShortcutRecordingLabel",
            LocaleKey::ShortcutRecordingHint => "ShortcutRecordingHint",
            LocaleKey::ShortcutClearButton => "ShortcutClearButton",
            LocaleKey::ShortcutEmptyPlaceholder => "ShortcutEmptyPlaceholder",
            LocaleKey::NotificationTestSound => "NotificationTestSound",
            LocaleKey::NotificationTestSoundPlaying => "NotificationTestSoundPlaying",
            LocaleKey::TrayIconModeLabel => "TrayIconModeLabel",
            LocaleKey::TrayIconModeHelper => "TrayIconModeHelper",
            LocaleKey::TrayIconModeSingle => "TrayIconModeSingle",
            LocaleKey::TrayIconModePerProvider => "TrayIconModePerProvider",
            LocaleKey::ShowProviderIcons => "ShowProviderIcons",
            LocaleKey::ShowProviderIconsHelper => "ShowProviderIconsHelper",
            LocaleKey::PreferHighestUsage => "PreferHighestUsage",
            LocaleKey::PreferHighestUsageHelper => "PreferHighestUsageHelper",
            LocaleKey::ShowPercentInTray => "ShowPercentInTray",
            LocaleKey::ShowPercentInTrayHelper => "ShowPercentInTrayHelper",
            LocaleKey::DisplayModeLabel => "DisplayModeLabel",
            LocaleKey::DisplayModeHelper => "DisplayModeHelper",
            LocaleKey::DisplayModeDetailed => "DisplayModeDetailed",
            LocaleKey::DisplayModeCompact => "DisplayModeCompact",
            LocaleKey::DisplayModeMinimal => "DisplayModeMinimal",
            _ => self.name_from_512(),
        }
    }

    fn name_from_512(self) -> (r: &'static str)
        ensures
            r@ == self.entry_from_512().1,
    {
        match self {
            LocaleKey::WindowScaleLabel => "WindowScaleLabel",
            LocaleKey::WindowScaleHelper => "WindowScaleHelper",
            LocaleKey::WindowScaleAriaLabel => "WindowScaleAriaLabel",
            LocaleKey::WindowMinimize => "WindowMinimize",
            LocaleKey::WindowMaximize => "WindowMaximize",
            LocaleKey::WindowRestore => "WindowRestore",
            LocaleKey::WindowClose => "WindowClose",
            LocaleKey::ShowAsUsedLabel => "ShowAsUsedLabel",
            LocaleKey::ShowAsUsedHelper => "ShowAsUsedHelper",
            LocaleKey::ShowAllTokenAccountsLabel => "ShowAllTokenAccountsLabel",
            LocaleKey::ShowAllTokenAccountsHelper => "ShowAllTokenAccountsHelper",
            LocaleKey::EnableAnimationsLabel => "EnableAnimationsLabel",
            LocaleKey::EnableAnimationsHelper => "EnableAnimationsHelper",
            LocaleKey::UpdateChannelStableOption => "UpdateChannelStableOption",
            LocaleKey::UpdateChannelBetaOption => "UpdateChannelBetaOption",
            LocaleKey::CodexLocalLogsTitle => "CodexLocalLogsTitle",
            LocaleKey::CodexLocalLogsCaption => "CodexLocalLogsCaption",
            LocaleKey::CodexLogPathsLabel => "CodexLogPathsLabel",
            LocaleKey::CodexLogPathsHelper => "CodexLogPathsHelper",
            LocaleKey::AvoidKeychainPromptsLabel => "AvoidKeychainPromptsLabel",
            LocaleKey::AvoidKeychainPromptsHelper => "AvoidKeychainPromptsHelper",
            LocaleKey::DisableAllKeychainLabel => "DisableAllKeychainLabel",
            LocaleKey::DisableAllKeychainHelper => "DisableAllKeychainHelper",
            LocaleKey::SectionTheme => "SectionTheme",
            LocaleKey::ThemeLabel => "ThemeLabel",
            LocaleKey::ThemeHelper => "ThemeHelper",
            LocaleKey::ThemeAutoOption => "ThemeAutoOption",
            LocaleKey::ThemeLightOption => "ThemeLightOption",
            LocaleKey::ThemeDarkOption => "ThemeDarkOption",
            LocaleKey::SettingsStatusSaving => "SettingsStatusSaving",
            LocaleKey::ApiKeysTabHint => "ApiKeysTabHint",
            LocaleKey::FetchingProviderData => "FetchingProviderData",
            LocaleKey::NoProvidersConfigured => "NoProvidersConfigured",
            LocaleKey::EnableProvidersHint => "EnableProvidersHint",
            LocaleKey::OpenSettingsButton => "OpenSettingsButton",
            LocaleKey::TooltipRefresh => "TooltipRefresh",
            LocaleKey::TooltipSettings => "TooltipSettings",
            LocaleKey::TooltipPopOut => "TooltipPopOut",
            LocaleKey::TooltipBackToTray => "TooltipBackToTray",
            LocaleKey::TrayCardErrorBadge => "TrayCardErrorBadge",
            LocaleKey::SummaryProvidersLabel => "SummaryProvidersLabel",
            LocaleKey::SummaryRefreshing => "SummaryRefreshing",
            LocaleKey::SummaryFailed => "SummaryFailed",
            LocaleKey::SummaryWithErrors => "SummaryWithErrors",
            LocaleKey::DetailBackButton => "DetailBackButton",
            LocaleKey::DetailWindowPrimary => "DetailWindowPrimary",
            LocaleKey::DetailWindowSecondary => "DetailWindowSecondary",
            LocaleKey::DetailWindowModelSpecific => "DetailWindowModelSpecific",
            LocaleKey::DetailWindowTertiary => "DetailWindowTertiary",
            LocaleKey::DetailWindowMinutesSuffix => "DetailWindowMinutesSuffix",
            LocaleKey::DetailWindowExhausted => "DetailWindowExhausted",
            LocaleKey::DetailPaceTitle => "DetailPaceTitle",
            LocaleKey::DetailPaceOnTrack => "DetailPaceOnTrack",
            LocaleKey::DetailPaceSlightlyAhead => "DetailPaceSlightlyAhead",
            LocaleKey::DetailPaceAhead => "DetailPaceAhead",
            LocaleKey::DetailPaceFarAhead => "DetailPaceFarAhead",
            LocaleKey::DetailPaceSlightlyBehind => "DetailPaceSlightlyBehind",
            LocaleKey::DetailPaceBehind => "DetailPaceBehind",
            LocaleKey::DetailPaceFarBehind => "DetailPaceFarBehind",
            LocaleKey::DetailPaceRunsOutIn => "DetailPaceRunsOutIn",
            LocaleKey::DetailPaceWillLastToReset => "DetailPaceWillLastToReset",
            LocaleKey::DetailCostTitle => "DetailCostTitle",
            LocaleKey::DetailCostUsed => "DetailCostUsed",
            LocaleKey::DetailCostLimit => "DetailCostLimit",
            _ => self.name_from_576(),
        }
    }

    fn name_from_576(self) -> (r: &'static str)
        ensures
            r@ == self.entry_from_576().1,
    {
        match self {
            LocaleKey::DetailCostRemaining => "DetailCostRemaining",
            LocaleKey::DetailCostBalance => "DetailCostBalance",
            LocaleKey::DetailCostResets => "DetailCostResets",
            LocaleKey::DetailChartCost => "DetailChartCost",
            LocaleKey::DetailChartTokens => "DetailChartTokens",
            LocaleKey::DetailChartRefreshing => "DetailChartRefreshing",
            LocaleKey::DetailChartCredits => "DetailChartCredits",
            LocaleKey::DetailChartUsageBreakdown => "DetailChartUsageBreakdown",
            LocaleKey::DetailChartEmpty => "DetailChartEmpty",
            LocaleKey::DetailUpdatedPrefix => "DetailUpdatedPrefix",
            LocaleKey::PanelAllProviders => "PanelAllProviders",
            LocaleKey::PanelAllProvidersShort => "PanelAllProvidersShort",
            LocaleKey::PanelShowAllProviders => "PanelShowAllProviders",
            LocaleKey::PanelShowFewerProviders => "PanelShowFewerProviders",
            LocaleKey::PanelZoom => "PanelZoom",
            LocaleKey::PanelMenu => "PanelMenu",
            LocaleKey::PanelCopied => "PanelCopied",
            LocaleKey::PanelToday => "PanelToday",
            LocaleKey::PanelThirtyDayCost => "PanelThirtyDayCost",
            LocaleKey::PanelThirtyDayTokens => "PanelThirtyDayTokens",
            LocaleKey::PanelLatestTokens => "PanelLatestTokens",
            LocaleKey::PanelThirtyDayCostHistogram => "PanelThirtyDayCostHistogram",
            LocaleKey::PanelTopModelPrefix => "PanelTopModelPrefix",
            LocaleKey::PanelEstimatedFromLocalLogs => "PanelEstimatedFromLocalLogs",
            LocaleKey::PanelEstimatedFromLocalLogsClaude => "PanelEstimatedFromLocalLogsClaude",
            LocaleKey::PanelExpected => "PanelExpected",
            LocaleKey::PanelActual => "PanelActual",
            LocaleKey::PanelUsedSuffix => "PanelUsedSuffix",
            LocaleKey::PanelLeftSuffix => "PanelLeftSuffix",
            LocaleKey::PanelOnPaceBudget => "PanelOnPaceBudget",
            LocaleKey::PanelNow => "PanelNow",
            LocaleKey::PanelOneHour => "PanelOneHour",
            LocaleKey::PanelFiveHours => "PanelFiveHours",
            LocaleKey::PanelTodayBudget => "PanelTodayBudget",
            LocaleKey::PanelReserveSuffix => "PanelReserveSuffix",
            LocaleKey::PanelReserveLastsUntilReset => "PanelReserveLastsUntilReset",
            LocaleKey::PanelReserveRunsOutInDaysHours => "PanelReserveRunsOutInDaysHours",
            LocaleKey::PanelReserveRunsOutInHours => "PanelReserveRunsOutInHours",
            LocaleKey::FloatBarThirtyDayShort => "FloatBarThirtyDayShort",
            LocaleKey::FloatBarNoProviders => "FloatBarNoProviders",
            LocaleKey::FloatBarRemainingSuffix => "FloatBarRemainingSuffix",
            LocaleKey::FloatBarShowCost => "FloatBarShowCost",
            LocaleKey::FloatBarShowCostDescription => "FloatBarShowCostDescription",
            LocaleKey::BannerCheckingForUpdates => "BannerCheckingForUpdates",
            LocaleKey::BannerUpdateAvailablePrefix => "BannerUpdateAvailablePrefix",
            LocaleKey::BannerDownloadButton => "BannerDownloadButton",
            LocaleKey::BannerViewRelease => "BannerViewRelease",
            LocaleKey::BannerDismiss => "BannerDismiss",
            LocaleKey::BannerDownloadingPrefix => "BannerDownloadingPrefix",
            LocaleKey::BannerReadyToInstallSuffix => "BannerReadyToInstallSuffix",
            LocaleKey::BannerInstallRestart => "BannerInstallRestart",
            LocaleKey::BannerUpdateFailedPrefix => "BannerUpdateFailedPrefix",
            LocaleKey::BannerRetry => "BannerRetry",
            LocaleKey::ProviderSidebarSearch => "ProviderSidebarSearch",
            LocaleKey::ProviderSidebarClearSearch => "ProviderSidebarClearSearch",
            LocaleKey::ProviderSidebarNoMatches => "ProviderSidebarNoMatches",
            LocaleKey::ProviderSidebarReorderHint => "ProviderSidebarReorderHint",
            LocaleKey::ProviderSidebarMoveUp => "ProviderSidebarMoveUp",
            LocaleKey::ProviderSidebarMoveDown => "ProviderSidebarMoveDown",
            LocaleKey::ProviderStatusOk => "ProviderStatusOk",
            LocaleKey::ProviderStatusStale => "ProviderStatusStale",
            LocaleKey::ProviderStatusError => "ProviderStatusError",
            LocaleKey::ProviderStatusLoading => "ProviderStatusLoading",
            LocaleKey::ProviderStatusDisabled => "ProviderStatusDisabled",
            _ => self.name_from_640(),
        }
    }

    fn name_from_640(self) -> (r: &'static str)
        ensures
            r@ == self.entry_from_640().1,
    {
        match self {
            LocaleKey::ProviderDetailPlaceholder => "ProviderDetailPlaceholder",
            LocaleKey::ProviderIssueNeedsSignIn => "ProviderIssueNeedsSignIn",
            LocaleKey::ProviderIssueFetchNeedsAttention => "ProviderIssueFetchNeedsAttention",
            LocaleKey::ProviderIssueCopy => "ProviderIssueCopy",
            LocaleKey::ProviderIssueUnsupportedSourceModePrefix => "ProviderIssueUnsupportedSourceModePrefix",
            LocaleKey::ProviderIssueAuthRequired => "ProviderIssueAuthRequired",
            LocaleKey::ProviderIssueSessionExpired => "ProviderIssueSessionExpired",
            LocaleKey::ProviderIssueLocalRuntimeOffline => "ProviderIssueLocalRuntimeOffline",
            LocaleKey::ProviderIssueUnknown => "ProviderIssueUnknown",
            LocaleKey::ProviderIssuePrivacySafeDetail => "ProviderIssuePrivacySafeDetail",
            LocaleKey::CredentialStorageTitle => "CredentialStorageTitle",
            LocaleKey::CredentialRevokeStored => "CredentialRevokeStored",
            LocaleKey::CredentialApiKeys => "CredentialApiKeys",
            LocaleKey::CredentialManualCookies => "CredentialManualCookies",
            LocaleKey::CredentialTokenAccounts => "CredentialTokenAccounts",
            LocaleKey::CredentialProtectedPrefix => "CredentialProtectedPrefix",
            LocaleKey::CredentialStatusNotCreated => "CredentialStatusNotCreated",
            LocaleKey::CredentialStatusPlaintext => "CredentialStatusPlaintext",
            LocaleKey::CredentialStatusUnavailable => "CredentialStatusUnavailable",
            LocaleKey::CredentialStatusUnreadable => "CredentialStatusUnreadable",
            LocaleKey::BrowserCookiesSectionTitle => "BrowserCookiesSectionTitle",
            LocaleKey::BrowserCookieNoneSaved => "BrowserCookieNoneSaved",
            LocaleKey::BrowserCookieSavedBadge => "BrowserCookieSavedBadge",
            LocaleKey::BrowserCookieRemove => "BrowserCookieRemove",
            LocaleKey::BrowserCookieImportSuccess => "BrowserCookieImportSuccess",
            LocaleKey::BrowserCookieImportFromBrowser => "BrowserCookieImportFromBrowser",
            LocaleKey::BrowserCookieProfileSingular => "BrowserCookieProfileSingular",
            LocaleKey::BrowserCookieProfilePlural => "BrowserCookieProfilePlural",
            LocaleKey::BrowserCookiePlaceholderDefault => "BrowserCookiePlaceholderDefault",
            LocaleKey::BrowserCookiePlaceholderOllama => "BrowserCookiePlaceholderOllama",
            LocaleKey::BrowserCookiePlaceholderCurl => "BrowserCookiePlaceholderCurl",
            LocaleKey::BrowserCookieSave => "BrowserCookieSave",
            LocaleKey::CredentialsSectionTitle => "CredentialsSectionTitle",
            LocaleKey::CredsStatusAuthenticated => "CredsStatusAuthenticated",
            LocaleKey::CredsStatusNotSignedIn => "CredsStatusNotSignedIn",
            LocaleKey::CredsStatusDetected => "CredsStatusDetected",
            LocaleKey::CredsStatusNotDetected => "CredsStatusNotDetected",
            LocaleKey::CredsStatusAvailable => "CredsStatusAvailable",
            LocaleKey::CredsStatusUnavailable => "CredsStatusUnavailable",
            LocaleKey::CredsOpenFolderAction => "CredsOpenFolderAction",
            LocaleKey::CredsRefreshDetectionAction => "CredsRefreshDetectionAction",
            LocaleKey::CredsSavePathAction => "CredsSavePathAction",
            LocaleKey::CredsBrowseAction => "CredsBrowseAction",
            LocaleKey::CredsGeminiCliLabel => "CredsGeminiCliLabel",
            LocaleKey::CredsGeminiCliHelperPrefix => "CredsGeminiCliHelperPrefix",
            LocaleKey::CredsGeminiCliSetupAction => "CredsGeminiCliSetupAction",
            LocaleKey::CredsGeminiCliSetupHelp => "CredsGeminiCliSetupHelp",
            LocaleKey::CredsVertexAiLabel => "CredsVertexAiLabel",
            LocaleKey::CredsVertexAiHelperPrefix => "CredsVertexAiHelperPrefix",
            LocaleKey::CredsVertexAiSetupAction => "CredsVertexAiSetupAction",
            LocaleKey::CredsVertexAiSetupHelp => "CredsVertexAiSetupHelp",
            LocaleKey::CredsJetBrainsLabel => "CredsJetBrainsLabel",
            LocaleKey::CredsJetBrainsHelperDetectedPrefix => "CredsJetBrainsHelperDetectedPrefix",
            LocaleKey::CredsJetBrainsHelperCustomPrefix => "CredsJetBrainsHelperCustomPrefix",
            LocaleKey::CredsJetBrainsHelperMissing => "CredsJetBrainsHelperMissing",
            LocaleKey::CredsJetBrainsCustomPathLabel => "CredsJetBrainsCustomPathLabel",
            LocaleKey::CredsJetBrainsCustomPathPlaceholder => "CredsJetBrainsCustomPathPlaceholder",
            LocaleKey::CredsJetBrainsSelectLabel => "CredsJetBrainsSelectLabel",
            LocaleKey::CredsJetBrainsAutoDetectOption => "CredsJetBrainsAutoDetectOption",
            LocaleKey::CredsKiroLabel => "CredsKiroLabel",
            LocaleKey::CredsKiroHelperAvailablePrefix => "CredsKiroHelperAvailablePrefix",
            LocaleKey::CredsKiroHelperMissing => "CredsKiroHelperMissing",
            LocaleKey::OpenCodeGoWorkspaceTitle => "OpenCodeGoWorkspaceTitle",
            LocaleKey::OpenCodeGoWorkspaceLabel => "OpenCodeGoWorkspaceLabel",
            _ => self.name_from_704(),
        }
    }

    fn name_from_704(self) -> (r: &'static str)
        ensures
            r@ == self.entry_from_704().1,
    {
        match self {
            LocaleKey::OpenCodeGoWorkspaceHelp => "OpenCodeGoWorkspaceHelp",
            LocaleKey::OpenRouterManagementKeyTitle => "OpenRouterManagementKeyTitle",
            LocaleKey::OpenRouterManagementKeyLabel => "OpenRouterManagementKeyLabel",
            LocaleKey::OpenRouterManagementKeyHelp => "OpenRouterManagementKeyHelp",
            LocaleKey::OpenRouterManagementKeyConfigured => "OpenRouterManagementKeyConfigured",
            LocaleKey::CredsOpenAiHistoryHelp => "CredsOpenAiHistoryHelp",
            LocaleKey::TokenAccountActive => "TokenAccountActive",
            LocaleKey::TokenAccountSetActive => "TokenAccountSetActive",
            LocaleKey::TokenAccountRemove => "TokenAccountRemove",
            LocaleKey::TokenAccountAddButton => "TokenAccountAddButton",
            LocaleKey::TokenAccountGithubLoginButton => "TokenAccountGithubLoginButton",
            LocaleKey::TokenAccountEmpty => "TokenAccountEmpty",
            LocaleKey::TokenAccountLabelPlaceholder => "TokenAccountLabelPlaceholder",
            LocaleKey::TokenAccountProviderLabel => "TokenAccountProviderLabel",
            LocaleKey::TokenAccountProviderPlaceholder => "TokenAccountProviderPlaceholder",
            LocaleKey::TokenAccountAddedPrefix => "TokenAccountAddedPrefix",
            LocaleKey::TokenAccountUsedPrefix => "TokenAccountUsedPrefix",
            LocaleKey::TokenAccountTabHint => "TokenAccountTabHint",
            LocaleKey::TokenAccountNoSupported => "TokenAccountNoSupported",
            LocaleKey::TokenAccountInlineSummary => "TokenAccountInlineSummary",
            LocaleKey::TrayPaceBadgeSlow => "TrayPaceBadgeSlow",
            LocaleKey::TrayPaceBadgeSteady => "TrayPaceBadgeSteady",
            LocaleKey::TrayPaceBadgeRacing => "TrayPaceBadgeRacing",
            LocaleKey::TrayPaceBadgeBurning => "TrayPaceBadgeBurning",
            LocaleKey::TrayResetsInLabel => "TrayResetsInLabel",
            LocaleKey::TrayResetsDueNow => "TrayResetsDueNow",
            LocaleKey::FloatBarSectionTitle => "FloatBarSectionTitle",
            LocaleKey::FloatBarShowFloatingBar => "FloatBarShowFloatingBar",
            LocaleKey::FloatBarShowFloatingBarHelper => "FloatBarShowFloatingBarHelper",
            LocaleKey::FloatBarOrientation => "FloatBarOrientation",
            LocaleKey::FloatBarOrientationHelper => "FloatBarOrientationHelper",
            LocaleKey::FloatBarOrientationHorizontal => "FloatBarOrientationHorizontal",
            LocaleKey::FloatBarOrientationVertical => "FloatBarOrientationVertical",
            LocaleKey::FloatBarStyle => "FloatBarStyle",
            LocaleKey::FloatBarStyleHelper => "FloatBarStyleHelper",
            LocaleKey::FloatBarStyleFloating => "FloatBarStyleFloating",
            LocaleKey::FloatBarStyleTaskbar => "FloatBarStyleTaskbar",
            LocaleKey::FloatBarOpacity => "FloatBarOpacity",
            LocaleKey::FloatBarOpacityHelper => "FloatBarOpacityHelper",
            LocaleKey::FloatBarOpacityAriaLabel => "FloatBarOpacityAriaLabel",
            LocaleKey::FloatBarSize => "FloatBarSize",
            LocaleKey::FloatBarSizeHelper => "FloatBarSizeHelper",
            LocaleKey::FloatBarSizeAriaLabel => "FloatBarSizeAriaLabel",
            LocaleKey::FloatBarShowResetInline => "FloatBarShowResetInline",
            LocaleKey::FloatBarShowResetInlineHelper => "FloatBarShowResetInlineHelper",
            LocaleKey::FloatBarInvertColors => "FloatBarInvertColors",
            LocaleKey::FloatBarInvertColorsHelper => "FloatBarInvertColorsHelper",
            LocaleKey::FloatBarClickThrough => "FloatBarClickThrough",
            LocaleKey::FloatBarClickThroughHelper => "FloatBarClickThroughHelper",
            LocaleKey::AppName => "AppName",
            LocaleKey::SettingsWindowTitle => "SettingsWindowTitle",
            LocaleKey::ErrorPrefix => "ErrorPrefix",
            LocaleKey::AboutLoading => "AboutLoading",
            LocaleKey::AboutCheckForUpdates => "AboutCheckForUpdates",
            LocaleKey::AboutChecking => "AboutChecking",
            LocaleKey::AboutUpToDate => "AboutUpToDate",
            LocaleKey::AboutCopyrightBefore => "AboutCopyrightBefore",
            LocaleKey::AboutCopyrightAfter => "AboutCopyrightAfter",
            LocaleKey::AboutLinkGitHub => "AboutLinkGitHub",
            LocaleKey::AboutLinkWebsite => "AboutLinkWebsite",
            LocaleKey::AboutLinkOriginalProject => "AboutLinkOriginalProject",
            LocaleKey::DiagnosticsSectionHeading => "DiagnosticsSectionHeading",
            LocaleKey::DiagnosticsCopyButton => "DiagnosticsCopyButton",
            LocaleKey::DiagnosticsCopied => "DiagnosticsCopied",
            _ => self.name_from_768(),
        }
    }

    fn name_from_768(self) -> (r: &'static str)
        ensures
            r@ == self.entry_from_768().1,
    {
        match self {
            LocaleKey::DiagnosticsCopyFailed => "DiagnosticsCopyFailed",
            LocaleKey::SavedCookiesHint => "SavedCookiesHint",
            LocaleKey::ImportFromBrowserHint => "ImportFromBrowserHint",
            LocaleKey::NoBrowsersDetectedHint => "NoBrowsersDetectedHint",
            LocaleKey::CookieHeaderValuePlaceholder => "CookieHeaderValuePlaceholder",
            LocaleKey::ApiKeyTitle => "ApiKeyTitle",
            LocaleKey::ApiKeyNotSet => "ApiKeyNotSet",
            LocaleKey::ApiKeyUpdate => "ApiKeyUpdate",
            LocaleKey::ApiKeyLabelOptional => "ApiKeyLabelOptional",
            LocaleKey::BootstrapFailed => "BootstrapFailed",
            LocaleKey::LoadingShellContract => "LoadingShellContract",
            LocaleKey::LoadingShellContractHint => "LoadingShellContractHint",
            LocaleKey::RefreshIntervalManual => "RefreshIntervalManual",
            LocaleKey::RefreshIntervalAdaptive => "RefreshIntervalAdaptive",
            LocaleKey::RefreshInterval15Min => "RefreshInterval15Min",
            LocaleKey::RefreshInterval30Min => "RefreshInterval30Min",
            LocaleKey::RefreshInterval1Hour => "RefreshInterval1Hour",
            LocaleKey::ProviderNameCodex => "ProviderNameCodex",
            LocaleKey::ProviderNameClaude => "ProviderNameClaude",
            LocaleKey::AgentSessionsProviderPi => "AgentSessionsProviderPi",
            LocaleKey::AgentSessionsProviderOmp => "AgentSessionsProviderOmp",
            LocaleKey::ProvidersAriaLabel => "ProvidersAriaLabel",
            LocaleKey::WaitingForUsage => "WaitingForUsage",
            LocaleKey::TokenAccountTokenPlaceholder => "TokenAccountTokenPlaceholder",
            LocaleKey::ProviderPlanClaudeAi => "ProviderPlanClaudeAi",
            LocaleKey::PaceChartAriaLabel => "PaceChartAriaLabel",
            LocaleKey::PaceChartLegendAverageSoFar => "PaceChartLegendAverageSoFar",
            LocaleKey::PaceChartLegendIdealPace => "PaceChartLegendIdealPace",
            LocaleKey::PaceChartLegendProjection => "PaceChartLegendProjection",
            LocaleKey::BarChartAriaLabel => "BarChartAriaLabel",
            LocaleKey::StackedBarChartAriaLabel => "StackedBarChartAriaLabel",
            LocaleKey::OpenAiAdminApiTitle => "OpenAiAdminApiTitle",
            LocaleKey::OpenAiProjectIdLabel => "OpenAiProjectIdLabel",
            LocaleKey::OpenAiProjectIdPlaceholder => "OpenAiProjectIdPlaceholder",
            LocaleKey::OpenAiProjectIdHelp => "OpenAiProjectIdHelp",
            LocaleKey::LiteLlmApiTitle => "LiteLlmApiTitle",
            LocaleKey::LiteLlmBaseUrlLabel => "LiteLlmBaseUrlLabel",
            LocaleKey::LiteLlmBaseUrlPlaceholder => "LiteLlmBaseUrlPlaceholder",
            LocaleKey::LiteLlmBaseUrlHelp => "LiteLlmBaseUrlHelp",
            LocaleKey::DevinApiTitle => "DevinApiTitle",
            LocaleKey::DevinOrganizationLabel => "DevinOrganizationLabel",
            LocaleKey::DevinOrganizationPlaceholder => "DevinOrganizationPlaceholder",
            LocaleKey::DevinOrganizationHelp => "DevinOrganizationHelp",
            LocaleKey::ZedApiTitle => "ZedApiTitle",
            LocaleKey::ZedApiUrlLabel => "ZedApiUrlLabel",
            LocaleKey::ZedApiUrlPlaceholder => "ZedApiUrlPlaceholder",
            LocaleKey::ZedApiUrlHelp => "ZedApiUrlHelp",
            LocaleKey::Sub2ApiTitle => "Sub2ApiTitle",
            LocaleKey::Sub2ApiBaseUrlLabel => "Sub2ApiBaseUrlLabel",
            LocaleKey::Sub2ApiBaseUrlPlaceholder => "Sub2ApiBaseUrlPlaceholder",
            LocaleKey::Sub2ApiBaseUrlHelp => "Sub2ApiBaseUrlHelp",
            LocaleKey::PromoteTrayIconLabel => "PromoteTrayIconLabel",
            LocaleKey::PromoteTrayIconHelper => "PromoteTrayIconHelper",
            LocaleKey::PromoteTrayIconUnsupportedHint => "PromoteTrayIconUnsupportedHint",
            LocaleKey::MistralMonthlySpend => "MistralMonthlySpend",
            LocaleKey::MistralMonthlySpendHelper => "MistralMonthlySpendHelper",
            LocaleKey::CostSummaryDisplayStyle => "CostSummaryDisplayStyle",
            LocaleKey::CostSummaryDisplayStyleHelper => "CostSummaryDisplayStyleHelper",
            LocaleKey::CostSummaryStyleCompact => "CostSummaryStyleCompact",
            LocaleKey::CostSummaryStyleDetailed => "CostSummaryStyleDetailed",
            LocaleKey::CostSummaryStyleHidden => "CostSummaryStyleHidden",
            LocaleKey::ProviderAccentColor => "ProviderAccentColor",
            LocaleKey::ProviderAccentColorHelper => "ProviderAccentColorHelper",
            LocaleKey::ProviderAccentColorReset => "ProviderAccentColorReset",
            _ => "ProviderAccentColorInvalid",
        }
    }

    /// All keys, each with its name, in the order of their places.
    pub fn all() -> (r: Vec<(LocaleKey, &'static str)>)
        ensures
            r@.len() == 833,
            listed(r@),
    {
        let mut r: Vec<(LocaleKey, &'static str)> = Vec::new();
        LocaleKey::put_from_0(&mut r);
        LocaleKey::put_from_64(&mut r);
        LocaleKey::put_from_128(&mut r);
        LocaleKey::put_from_192(&mut r);
        LocaleKey::put_from_256(&mut r);
        LocaleKey::put_from_320(&mut r);
        LocaleKey::put_from_384(&mut r);
        LocaleKey::put_from_448(&mut r);
        LocaleKey::put_from_512(&mut r);
        LocaleKey::put_from_576(&mut r);
        LocaleKey::put_from_640(&mut r);
        LocaleKey::put_from_704(&mut r);
        LocaleKey::put_from_768(&mut r);
        LocaleKey::ProviderAccentColorInvalid.put(&mut r);
        r
    }

    fn put(self, r: &mut Vec<(LocaleKey, &'static str)>)
        requires
            self.place() == old(r)@.len(),
            listed(old(r)@),
        ensures
            final(r)@.len() == old(r)@.len() + 1,
            listed(final(r)@),
    {
        let name = self.name();
        r.push((self, name));
    }

    fn put_from_0(r: &mut Vec<(LocaleKey, &'static str)>)
        requires
            old(r)@.len() == 0,
            listed(old(r)@),
        ensures
            final(r)@.len() == 64,
            listed(final(r)@),
    {
        LocaleKey::TabGeneral.put(r);
        LocaleKey::TabProviders.put(r);
        LocaleKey::TabNotifications.put(r);
        LocaleKey::TabMenuBar.put(r);
        LocaleKey::TabMenu.put(r);
        LocaleKey::TabApiKeys.put(r);
        LocaleKey::TabCookies.put(r);
        LocaleKey::TabUsageSpend.put(r);
        LocaleKey::TabAdvanced.put(r);
        LocaleKey::TabAbout.put(r);
        LocaleKey::TabShortcuts.put(r);
        LocaleKey::InterfaceLanguage.put(r);
        LocaleKey::StartupSettings.put(r);
        LocaleKey::StartAtLogin.put(r);
        LocaleKey::StartMinimized.put(r);
        LocaleKey::StartAtLoginHelper.put(r);
        LocaleKey::StartMinimizedHelper.put(r);
        LocaleKey::ShowNotificationsHelper.put(r);
        LocaleKey::SoundEnabledHelper.put(r);
        LocaleKey::HighUsageThresholdHelper.put(r);
        LocaleKey::CriticalUsageThresholdHelper.put(r);
        LocaleKey::ShowNotifications.put(r);
        LocaleKey::SoundEnabled.put(r);
        LocaleKey::NotificationSoundTheme.put(r);
        LocaleKey::NotificationSoundThemeHelper.put(r);
        LocaleKey::NotificationSoundThemeWindows.put(r);
        LocaleKey::NotificationSoundThemeCodexBar.put(r);
        LocaleKey::NotificationSoundChooseFile.put(r);
        LocaleKey::NotificationSoundClearFile.put(r);
        LocaleKey::NotificationSoundUsesTheme.put(r);
        LocaleKey::NotificationSoundWaveFile.put(r);
        LocaleKey::NotificationSoundEventPredictiveWarning.put(r);
        LocaleKey::NotificationSoundEventPredictiveWarningHelper.put(r);
        LocaleKey::NotificationSoundEventHighUsage.put(r);
        LocaleKey::NotificationSoundEventHighUsageHelper.put(r);
        LocaleKey::NotificationSoundEventCriticalUsage.put(r);
        LocaleKey::NotificationSoundEventCriticalUsageHelper.put(r);
        LocaleKey::NotificationSoundEventExhausted.put(r);
        LocaleKey::NotificationSoundEventExhaustedHelper.put(r);
        LocaleKey::NotificationSoundEventStatusIssue.put(r);
        LocaleKey::NotificationSoundEventStatusIssueHelper.put(r);
        LocaleKey::NotificationSoundEventSessionDepleted.put(r);
        LocaleKey::NotificationSoundEventSessionDepletedHelper.put(r);
        LocaleKey::NotificationSoundEventSessionRestored.put(r);
        LocaleKey::NotificationSoundEventSessionRestoredHelper.put(r);
        LocaleKey::HighUsageThreshold.put(r);
        LocaleKey::HighUsageAlert.put(r);
        LocaleKey::CriticalUsageThreshold.put(r);
        LocaleKey::CriticalUsageAlert.put(r);
        LocaleKey::PredictivePaceWarnings.put(r);
        LocaleKey::PredictivePaceWarningsHelper.put(r);
        LocaleKey::PredictivePaceWarningTitle.put(r);
        LocaleKey::PredictivePaceWarningBody.put(r);
        LocaleKey::UsageDisplay.put(r);
        LocaleKey::ShowUsageAsUsed.put(r);
        LocaleKey::ShowUsageAsUsedHelper.put(r);
        LocaleKey::ResetTimeRelative.put(r);
        LocaleKey::ResetTimeRelativeHelper.put(r);
        LocaleKey::ShowResetWhenExhausted.put(r);
        LocaleKey::ShowResetWhenExhaustedHelper.put(r);
        LocaleKey::ShowPace.put(r);
        LocaleKey::ShowPaceHelper.put(r);
        LocaleKey::TrayIcon.put(r);
        LocaleKey::MergeTrayIcons.put(r);
    }

    fn put_from_64(r: &mut Vec<(LocaleKey, &'static str)>)
        requires
            old(r)@.len() == 64,
            listed(old(r)@),
        ensures
            final(r)@.len() == 128,
            listed(final(r)@),
    {
        LocaleKey::MergeTrayIconsHelper.put(r);
        LocaleKey::PerProviderTrayIcons.put(r);
        LocaleKey::PerProviderTrayIconsHelper.put(r);
        LocaleKey::ProviderEnabled.put(r);
        LocaleKey::ProviderDisabled.put(r);
        LocaleKey::ProviderInfo.put(r);
        LocaleKey::ProviderUsage.put(r);
        LocaleKey::PanelUsageDetails.put(r);
        LocaleKey::AuthType.put(r);
        LocaleKey::DataSource.put(r);
        LocaleKey::ProviderNotDetected.put(r);
        LocaleKey::ProviderLastFetchFailed.put(r);
        LocaleKey::ProviderUsageNotFetchedYet.put(r);
        LocaleKey::ProviderNotFetchedYetTitle.put(r);
        LocaleKey::ProviderDisabledNoRecentData.put(r);
        LocaleKey::ProviderSourceAutoShort.put(r);
        LocaleKey::ProviderSourceWebShort.put(r);
        LocaleKey::ProviderSourceCliShort.put(r);
        LocaleKey::ProviderSourceOauthShort.put(r);
        LocaleKey::ProviderSourceApiShort.put(r);
        LocaleKey::ProviderSourceGithubApiShort.put(r);
        LocaleKey::ProviderSourceLocalShort.put(r);
        LocaleKey::ProviderSourceKiroEnvShort.put(r);
        LocaleKey::WayfinderGatewayTitle.put(r);
        LocaleKey::WayfinderGatewayLabel.put(r);
        LocaleKey::WayfinderGatewayHelp.put(r);
        LocaleKey::WayfinderGatewayStatus.put(r);
        LocaleKey::WayfinderModels.put(r);
        LocaleKey::WayfinderRequests.put(r);
        LocaleKey::WayfinderTokens.put(r);
        LocaleKey::WayfinderSaved.put(r);
        LocaleKey::WayfinderOffline.put(r);
        LocaleKey::WayfinderDryRun.put(r);
        LocaleKey::WayfinderMissingKeys.put(r);
        LocaleKey::TrackingItem.put(r);
        LocaleKey::MainWindowLiveUsageData.put(r);
        LocaleKey::StartTrackingUsage.put(r);
        LocaleKey::ClickTrayIconForMetrics.put(r);
        LocaleKey::BrowserCookieImport.put(r);
        LocaleKey::ImportFromBrowser.put(r);
        LocaleKey::NoCookiesFoundInBrowser.put(r);
        LocaleKey::SelectBrowser.put(r);
        LocaleKey::ImportCookies.put(r);
        LocaleKey::ImportSuccess.put(r);
        LocaleKey::ImportFailed.put(r);
        LocaleKey::SaveFailed.put(r);
        LocaleKey::CookiesAutoImport.put(r);
        LocaleKey::QuickActions.put(r);
        LocaleKey::OpenProviderDashboard.put(r);
        LocaleKey::OllamaNoDashboard.put(r);
        LocaleKey::ApiKeysTitle.put(r);
        LocaleKey::ApiKeysDescription.put(r);
        LocaleKey::AddKey.put(r);
        LocaleKey::KeySet.put(r);
        LocaleKey::KeyRequired.put(r);
        LocaleKey::Remove.put(r);
        LocaleKey::GetKey.put(r);
        LocaleKey::SavedCookies.put(r);
        LocaleKey::AddManualCookie.put(r);
        LocaleKey::CookieHeader.put(r);
        LocaleKey::PasteHere.put(r);
        LocaleKey::DeleteCookie.put(r);
        LocaleKey::CookieSaved.put(r);
        LocaleKey::CookieDeleted.put(r);
    }

    fn put_from_128(r: &mut Vec<(LocaleKey, &'static str)>)
        requires
            old(r)@.len() == 128,
            listed(old(r)@),
        ensures
            final(r)@.len() == 192,
            listed(final(r)@),
    {
        LocaleKey::RefreshSettings.put(r);
        LocaleKey::Animations.put(r);
        LocaleKey::MenuBar.put(r);
        LocaleKey::Fun.put(r);
        LocaleKey::GlobalShortcut.put(r);
        LocaleKey::Privacy.put(r);
        LocaleKey::Updates.put(r);
        LocaleKey::UpdateChannel.put(r);
        LocaleKey::UpdateChannelStable.put(r);
        LocaleKey::UpdateChannelBeta.put(r);
        LocaleKey::Never.put(r);
        LocaleKey::LastUpdated.put(r);
        LocaleKey::NeverUpdated.put(r);
        LocaleKey::MinutesAgo.put(r);
        LocaleKey::HoursAgo.put(r);
        LocaleKey::DaysAgo.put(r);
        LocaleKey::BuiltWithRust.put(r);
        LocaleKey::OriginalMacOSVersion.put(r);
        LocaleKey::Links.put(r);
        LocaleKey::BuildInfo.put(r);
        LocaleKey::EnabledProviders.put(r);
        LocaleKey::Appearance.put(r);
        LocaleKey::ThemeSelection.put(r);
        LocaleKey::LightMode.put(r);
        LocaleKey::DarkMode.put(r);
        LocaleKey::AboutTitle.put(r);
        LocaleKey::Version.put(r);
        LocaleKey::ActionRefreshAll.put(r);
        LocaleKey::ActionSettings.put(r);
        LocaleKey::ActionClose.put(r);
        LocaleKey::ProviderAccount.put(r);
        LocaleKey::ProviderSession.put(r);
        LocaleKey::ProviderWeekly.put(r);
        LocaleKey::ProviderMonthly.put(r);
        LocaleKey::DeepSeekPricingTitle.put(r);
        LocaleKey::DeepSeekPricingStandard.put(r);
        LocaleKey::DeepSeekPricingPeak.put(r);
        LocaleKey::DeepSeekPricingOffPeak.put(r);
        LocaleKey::DeepSeekPricingCurrent.put(r);
        LocaleKey::DeepSeekPricingNext.put(r);
        LocaleKey::DeepSeekPricingEffective.put(r);
        LocaleKey::DeepSeekPricingAdvice.put(r);
        LocaleKey::ProviderModel.put(r);
        LocaleKey::ProviderPlan.put(r);
        LocaleKey::ProviderNextReset.put(r);
        LocaleKey::ProviderNoRecentUsage.put(r);
        LocaleKey::ProviderNotSignedIn.put(r);
        LocaleKey::SummaryTab.put(r);
        LocaleKey::StateLoadingProviders.put(r);
        LocaleKey::StateNoProviderData.put(r);
        LocaleKey::StateNoProviderSelected.put(r);
        LocaleKey::StateSummaryRefreshPending.put(r);
        LocaleKey::StateError.put(r);
        LocaleKey::StateRetry.put(r);
        LocaleKey::StateDownload.put(r);
        LocaleKey::StateRestartAndUpdate.put(r);
        LocaleKey::CreditsTitle.put(r);
        LocaleKey::UpdateRestartAndUpdate.put(r);
        LocaleKey::UpdateRetry.put(r);
        LocaleKey::UpdateDownload.put(r);
        LocaleKey::UpdateDownloading.put(r);
        LocaleKey::UpdateReady.put(r);
        LocaleKey::UpdateFailed.put(r);
        LocaleKey::ButtonOpenProviderSettings.put(r);
    }

    fn put_from_192(r: &mut Vec<(LocaleKey, &'static str)>)
        requires
            old(r)@.len() == 192,
            listed(old(r)@),
        ensures
            final(r)@.len() == 256,
            listed(final(r)@),
    {
        LocaleKey::MenuSettings.put(r);
        LocaleKey::MenuAbout.put(r);
        LocaleKey::MenuQuit.put(r);
        LocaleKey::StatusJustUpdated.put(r);
        LocaleKey::StatusUnableToGetUsage.put(r);
        LocaleKey::ActionRefresh.put(r);
        LocaleKey::ActionSwitchAccount.put(r);
        LocaleKey::ActionUsageDashboard.put(r);
        LocaleKey::ActionStatusPage.put(r);
        LocaleKey::ActionCopyError.put(r);
        LocaleKey::ActionBuyCredits.put(r);
        LocaleKey::PaceOnTrack.put(r);
        LocaleKey::PaceBehind.put(r);
        LocaleKey::MetricResetsIn.put(r);
        LocaleKey::SectionUsageBreakdown.put(r);
        LocaleKey::SectionCost.put(r);
        LocaleKey::ResetInProgress.put(r);
        LocaleKey::TomorrowAt.put(r);
        LocaleKey::UsedPercent.put(r);
        LocaleKey::RemainingPercent.put(r);
        LocaleKey::RemainingAmount.put(r);
        LocaleKey::Tokens1K.put(r);
        LocaleKey::TodayCost.put(r);
        LocaleKey::Last30DaysCost.put(r);
        LocaleKey::StatusLabel.put(r);
        LocaleKey::TrayOpenCodexBar.put(r);
        LocaleKey::TrayPopOutDashboard.put(r);
        LocaleKey::TrayShowWindow.put(r);
        LocaleKey::TrayShowFloatBar.put(r);
        LocaleKey::TrayRefreshAll.put(r);
        LocaleKey::TrayProviders.put(r);
        LocaleKey::TraySettings.put(r);
        LocaleKey::TrayCheckForUpdates.put(r);
        LocaleKey::TrayQuit.put(r);
        LocaleKey::TrayLoading.put(r);
        LocaleKey::TrayNoProviders.put(r);
        LocaleKey::TraySessionPercent.put(r);
        LocaleKey::TrayWeeklyPercent.put(r);
        LocaleKey::TrayStatusError.put(r);
        LocaleKey::TrayStatusStale.put(r);
        LocaleKey::TrayStatusIncident.put(r);
        LocaleKey::TrayStatusPartial.put(r);
        LocaleKey::TrayWeeklyExhausted.put(r);
        LocaleKey::TrayCreditsRemaining.put(r);
        LocaleKey::TrayStatusRowLoading.put(r);
        LocaleKey::TrayStatusRowError.put(r);
        LocaleKey::TrayCreditsRow.put(r);
        LocaleKey::TrayProviderPopOut.put(r);
        LocaleKey::TrayProviderRefresh.put(r);
        LocaleKey::TrayProviderSettings.put(r);
        LocaleKey::TrayProviderQuit.put(r);
        LocaleKey::State.put(r);
        LocaleKey::Source.put(r);
        LocaleKey::Updated.put(r);
        LocaleKey::UpdatedJustNow.put(r);
        LocaleKey::UpdatedMinutesAgo.put(r);
        LocaleKey::UpdatedHoursAgo.put(r);
        LocaleKey::UpdatedDaysAgo.put(r);
        LocaleKey::Status.put(r);
        LocaleKey::AllSystemsOperational.put(r);
        LocaleKey::Plan.put(r);
        LocaleKey::Account.put(r);
        LocaleKey::ProviderSessionLabel.put(r);
        LocaleKey::ProviderWeeklyLabel.put(r);
    }

    fn put_from_256(r: &mut Vec<(LocaleKey, &'static str)>)
        requires
            old(r)@.len() == 256,
            listed(old(r)@),
        ensures
            final(r)@.len() == 320,
            listed(final(r)@),
    {
        LocaleKey::ProviderCodeReviewLabel.put(r);
        LocaleKey::ResetsInShort.put(r);
        LocaleKey::ResetsInDaysHours.put(r);
        LocaleKey::ResetsInHoursMinutes.put(r);
        LocaleKey::ResetsInMinutes.put(r);
        LocaleKey::NextExpiresInDaysHours.put(r);
        LocaleKey::NextExpiresInHoursMinutes.put(r);
        LocaleKey::NextExpiresInMinutes.put(r);
        LocaleKey::NextExpiresDueNow.put(r);
        LocaleKey::TrayDisplayTitle.put(r);
        LocaleKey::ShowInTray.put(r);
        LocaleKey::CreditsLabel.put(r);
        LocaleKey::CreditsLeft.put(r);
        LocaleKey::CostTitle.put(r);
        LocaleKey::TodayCostFull.put(r);
        LocaleKey::Last30DaysCostFull.put(r);
        LocaleKey::ProviderSettingsTitle.put(r);
        LocaleKey::ProviderAccountsTitle.put(r);
        LocaleKey::ProviderOptionsTitle.put(r);
        LocaleKey::MenuBarMetric.put(r);
        LocaleKey::MenuBarMetricHelper.put(r);
        LocaleKey::UsageSource.put(r);
        LocaleKey::ProviderNoCodexAccountsDetected.put(r);
        LocaleKey::ProviderCodexAutoImportHelp.put(r);
        LocaleKey::ProviderCodexHistoryHelp.put(r);
        LocaleKey::ProviderOpenAiCookies.put(r);
        LocaleKey::ProviderHistoricalTracking.put(r);
        LocaleKey::ProviderOpenAiWebExtras.put(r);
        LocaleKey::ProviderOpenAiWebExtrasHelp.put(r);
        LocaleKey::ProviderCodexCreditsUnavailable.put(r);
        LocaleKey::ProviderCodexLastFetchFailedTitle.put(r);
        LocaleKey::ProviderCodexNotRunningHelp.put(r);
        LocaleKey::ProviderCookieSource.put(r);
        LocaleKey::CookieSourceManual.put(r);
        LocaleKey::ProviderRegion.put(r);
        LocaleKey::ProviderClaudeCookies.put(r);
        LocaleKey::ProviderClaudeCookiesHelp.put(r);
        LocaleKey::ProviderClaudeAvoidKeychainPrompts.put(r);
        LocaleKey::ProviderClaudeAvoidKeychainPromptsHelp.put(r);
        LocaleKey::ProviderClaudeDailyRoutinesUsage.put(r);
        LocaleKey::ProviderClaudeDailyRoutinesUsageHelp.put(r);
        LocaleKey::ProviderClaudeAllowReadingClaudeCodeCredentials.put(r);
        LocaleKey::ProviderClaudeAllowReadingClaudeCodeCredentialsHelp.put(r);
        LocaleKey::ProviderCodexSparkUsage.put(r);
        LocaleKey::ProviderCodexSparkUsageHelp.put(r);
        LocaleKey::CodexAccountsTitle.put(r);
        LocaleKey::ClaudeAccountsTitle.put(r);
        LocaleKey::ClaudeAccountsHint.put(r);
        LocaleKey::ClaudeAccountsEmpty.put(r);
        LocaleKey::ClaudeAccountsSaveCurrent.put(r);
        LocaleKey::ClaudeAccountsCancelLogin.put(r);
        LocaleKey::ClaudeAccountsSigningIn.put(r);
        LocaleKey::ClaudeAccountsSwitched.put(r);
        LocaleKey::ClaudeAccountsAdded.put(r);
        LocaleKey::CodexAccountsHint.put(r);
        LocaleKey::CodexAccountsAddButton.put(r);
        LocaleKey::CodexAccountsSwitchButton.put(r);
        LocaleKey::CodexAccountsFetchButton.put(r);
        LocaleKey::CodexAccountsRemoveButton.put(r);
        LocaleKey::CodexAccountsEmpty.put(r);
        LocaleKey::CodexAccountsSourceAmbient.put(r);
        LocaleKey::CodexAccountsSourceManaged.put(r);
        LocaleKey::CodexAccountsUsageUnavailable.put(r);
        LocaleKey::CodexSwitchSuccess.put(r);
    }

    fn put_from_320(r: &mut Vec<(LocaleKey, &'static str)>)
        requires
            old(r)@.len() == 320,
            listed(old(r)@),
        ensures
            final(r)@.len() == 384,
            listed(final(r)@),
    {
        LocaleKey::CodexSwitchRestartPrompt.put(r);
        LocaleKey::CodexAccountsRestartDesktop.put(r);
        LocaleKey::ProviderCursorCookieSourceHelp.put(r);
        LocaleKey::ProviderCursorCreditsHelp.put(r);
        LocaleKey::AutoFallbackHelp.put(r);
        LocaleKey::ProviderSourceOauthWeb.put(r);
        LocaleKey::Automatic.put(r);
        LocaleKey::Average.put(r);
        LocaleKey::ExtraUsage.put(r);
        LocaleKey::OAuth.put(r);
        LocaleKey::Api.put(r);
        LocaleKey::Web.put(r);
        LocaleKey::PrivacyTitle.put(r);
        LocaleKey::HidePersonalInfo.put(r);
        LocaleKey::HidePersonalInfoHelper.put(r);
        LocaleKey::SectionLocalIntegrations.put(r);
        LocaleKey::PowerToysPipeLabel.put(r);
        LocaleKey::PowerToysPipeHelper.put(r);
        LocaleKey::HooksTitle.put(r);
        LocaleKey::HooksCaption.put(r);
        LocaleKey::HooksEnableLabel.put(r);
        LocaleKey::HooksEnableHelper.put(r);
        LocaleKey::HooksConfigPathHint.put(r);
        LocaleKey::NetworkProxyTitle.put(r);
        LocaleKey::NetworkProxyCaption.put(r);
        LocaleKey::NetworkProxyEnableLabel.put(r);
        LocaleKey::NetworkProxyEnableHelper.put(r);
        LocaleKey::NetworkProxyUrlLabel.put(r);
        LocaleKey::NetworkProxyUrlHelper.put(r);
        LocaleKey::NetworkProxyUserLabel.put(r);
        LocaleKey::NetworkProxyPasswordLabel.put(r);
        LocaleKey::NetworkProxyPasswordHelper.put(r);
        LocaleKey::NetworkProxyInvalidUrl.put(r);
        LocaleKey::UsageSpendTitle.put(r);
        LocaleKey::UsageSpendCaption.put(r);
        LocaleKey::UsageSpendModels.put(r);
        LocaleKey::UsageSpendAllTime.put(r);
        LocaleKey::UsageSpendOpenCodexImport.put(r);
        LocaleKey::UsageSpendHideNativeCodex.put(r);
        LocaleKey::UsageSpendSpend.put(r);
        LocaleKey::UsageSpendPriceCoverage.put(r);
        LocaleKey::UsageSpendConversations.put(r);
        LocaleKey::UsageSpendTokenMix.put(r);
        LocaleKey::UsageSpendKnownZero.put(r);
        LocaleKey::UsageSpendApiEstimate.put(r);
        LocaleKey::UsageSpendVendorMetered.put(r);
        LocaleKey::UsageSpendMixedSources.put(r);
        LocaleKey::UsageSpendUnknown.put(r);
        LocaleKey::UsageSpendUnpriced.put(r);
        LocaleKey::UsageSpendHistoryCovered.put(r);
        LocaleKey::UsageSpendPartialHistory.put(r);
        LocaleKey::UsageSpendCustomPricingActive.put(r);
        LocaleKey::UsageSpendDefaultPricing.put(r);
        LocaleKey::UsageSpendHourlyActivity.put(r);
        LocaleKey::UsageSpendRequests.put(r);
        LocaleKey::UsageSpendTokens.put(r);
        LocaleKey::UsageSpendAllTimeHistory.put(r);
        LocaleKey::UsageSpendCustomPricing.put(r);
        LocaleKey::OverviewSpendTitle.put(r);
        LocaleKey::OverviewSpendProviderCoverage.put(r);
        LocaleKey::OverviewSpendEstimate.put(r);
        LocaleKey::UsageSpendProjects.put(r);
        LocaleKey::UsageSpendShowAll.put(r);
        LocaleKey::UsageSpendShowLess.put(r);
    }

    fn put_from_384(r: &mut Vec<(LocaleKey, &'static str)>)
        requires
            old(r)@.len() == 384,
            listed(old(r)@),
        ensures
            final(r)@.len() == 448,
            listed(final(r)@),
    {
        LocaleKey::UsageSpendNoModels.put(r);
        LocaleKey::UsageSpendNoProjects.put(r);
        LocaleKey::UsageSpendRefresh.put(r);
        LocaleKey::UsageSpendLoading.put(r);
        LocaleKey::UsageSpendRefreshing.put(r);
        LocaleKey::UsageSpendEmpty.put(r);
        LocaleKey::UsageSpendColProvider.put(r);
        LocaleKey::UsageSpendCol7d.put(r);
        LocaleKey::UsageSpendCol30d.put(r);
        LocaleKey::UsageSpendColCurrency.put(r);
        LocaleKey::UsageSpendColSource.put(r);
        LocaleKey::UsageSpendShare.put(r);
        LocaleKey::UsageSpendCopyJson.put(r);
        LocaleKey::UsageSpendSaveJson.put(r);
        LocaleKey::UsageSpendShareEmpty.put(r);
        LocaleKey::UsageSpendShareFailed.put(r);
        LocaleKey::AgentSessionsTitle.put(r);
        LocaleKey::AgentSessionsEnableLabel.put(r);
        LocaleKey::AgentSessionsEnableHelper.put(r);
        LocaleKey::AgentSessionsSshHostsLabel.put(r);
        LocaleKey::AgentSessionsSshHostsHelper.put(r);
        LocaleKey::AgentSessionsLoading.put(r);
        LocaleKey::AgentSessionsEmpty.put(r);
        LocaleKey::UpdatesTitle.put(r);
        LocaleKey::UpdateChannelChoice.put(r);
        LocaleKey::UpdateChannelChoiceHelper.put(r);
        LocaleKey::AutoDownloadUpdates.put(r);
        LocaleKey::AutoDownloadUpdatesHelper.put(r);
        LocaleKey::InstallUpdatesOnQuit.put(r);
        LocaleKey::InstallUpdatesOnQuitHelper.put(r);
        LocaleKey::KeyboardShortcutsTitle.put(r);
        LocaleKey::GlobalShortcutLabel.put(r);
        LocaleKey::GlobalShortcutHelper.put(r);
        LocaleKey::ShortcutFormatHint.put(r);
        LocaleKey::Saved.put(r);
        LocaleKey::InvalidFormat.put(r);
        LocaleKey::ShortcutHintPlaceholder.put(r);
        LocaleKey::SelectProvider.put(r);
        LocaleKey::RefreshInterval30Sec.put(r);
        LocaleKey::RefreshInterval1Min.put(r);
        LocaleKey::RefreshInterval5Min.put(r);
        LocaleKey::RefreshInterval10Min.put(r);
        LocaleKey::BrowserCookiesTitle.put(r);
        LocaleKey::CookieImport.put(r);
        LocaleKey::Provider.put(r);
        LocaleKey::SelectPlaceholder.put(r);
        LocaleKey::AutoRefreshInterval.put(r);
        LocaleKey::AboutDescription.put(r);
        LocaleKey::AboutDescriptionLine2.put(r);
        LocaleKey::ViewOnGitHub.put(r);
        LocaleKey::SubmitIssue.put(r);
        LocaleKey::MaintainedBy.put(r);
        LocaleKey::CommitLabel.put(r);
        LocaleKey::BuildDateLabel.put(r);
        LocaleKey::Save.put(r);
        LocaleKey::Cancel.put(r);
        LocaleKey::Label.put(r);
        LocaleKey::Token.put(r);
        LocaleKey::AddAccount.put(r);
        LocaleKey::AccountAdded.put(r);
        LocaleKey::AccountRemoved.put(r);
        LocaleKey::AccountSwitched.put(r);
        LocaleKey::AccountLabelHint.put(r);
        LocaleKey::EnterApiKeyFor.put(r);
    }

    fn put_from_448(r: &mut Vec<(LocaleKey, &'static str)>)
        requires
            old(r)@.len() == 448,
            listed(old(r)@),
        ensures
            final(r)@.len() == 512,
            listed(final(r)@),
    {
        LocaleKey::PasteApiKeyHere.put(r);
        LocaleKey::ApiKeySaved.put(r);
        LocaleKey::ApiKeyRemoved.put(r);
        LocaleKey::EnvironmentVariable.put(r);
        LocaleKey::CookieSavedForProvider.put(r);
        LocaleKey::CookieRemovedForProvider.put(r);
        LocaleKey::ShowUsedPercent.put(r);
        LocaleKey::ShowRemainingPercent.put(r);
        LocaleKey::UpdateAvailableMessage.put(r);
        LocaleKey::UpdateReadyMessage.put(r);
        LocaleKey::UpdateFailedMessage.put(r);
        LocaleKey::UpdateDownloadingMessage.put(r);
        LocaleKey::TabTokenAccounts.put(r);
        LocaleKey::SectionRefresh.put(r);
        LocaleKey::SectionNotifications.put(r);
        LocaleKey::SectionUsageThresholds.put(r);
        LocaleKey::SectionKeyboard.put(r);
        LocaleKey::SectionUsageRendering.put(r);
        LocaleKey::SectionTime.put(r);
        LocaleKey::SectionLanguage.put(r);
        LocaleKey::SectionCredentialsSecurity.put(r);
        LocaleKey::SectionDebug.put(r);
        LocaleKey::SectionApiKeys.put(r);
        LocaleKey::SectionSavedCookies.put(r);
        LocaleKey::SectionImportFromBrowser.put(r);
        LocaleKey::SectionAddCookieManually.put(r);
        LocaleKey::SectionTokenAccounts.put(r);
        LocaleKey::SectionSavedAccounts.put(r);
        LocaleKey::SectionAddAccount.put(r);
        LocaleKey::RefreshIntervalLabel.put(r);
        LocaleKey::RefreshIntervalHelper.put(r);
        LocaleKey::RefreshAllProvidersOnMenuOpen.put(r);
        LocaleKey::RefreshAllProvidersOnMenuOpenHelper.put(r);
        LocaleKey::LowPowerMode.put(r);
        LocaleKey::LowPowerModeHelper.put(r);
        LocaleKey::LowPowerModeOff.put(r);
        LocaleKey::LowPowerModeOn.put(r);
        LocaleKey::LowPowerModeAutomatic.put(r);
        LocaleKey::HighUsageWarningHelper.put(r);
        LocaleKey::CriticalUsageWarningHelper.put(r);
        LocaleKey::GlobalShortcutFieldLabel.put(r);
        LocaleKey::GlobalShortcutToggleHelper.put(r);
        LocaleKey::ShortcutRecordButton.put(r);
        LocaleKey::ShortcutRecordingLabel.put(r);
        LocaleKey::ShortcutRecordingHint.put(r);
        LocaleKey::ShortcutClearButton.put(r);
        LocaleKey::ShortcutEmptyPlaceholder.put(r);
        LocaleKey::NotificationTestSound.put(r);
        LocaleKey::NotificationTestSoundPlaying.put(r);
        LocaleKey::TrayIconModeLabel.put(r);
        LocaleKey::TrayIconModeHelper.put(r);
        LocaleKey::TrayIconModeSingle.put(r);
        LocaleKey::TrayIconModePerProvider.put(r);
        LocaleKey::ShowProviderIcons.put(r);
        LocaleKey::ShowProviderIconsHelper.put(r);
        LocaleKey::PreferHighestUsage.put(r);
        LocaleKey::PreferHighestUsageHelper.put(r);
        LocaleKey::ShowPercentInTray.put(r);
        LocaleKey::ShowPercentInTrayHelper.put(r);
        LocaleKey::DisplayModeLabel.put(r);
        LocaleKey::DisplayModeHelper.put(r);
        LocaleKey::DisplayModeDetailed.put(r);
        LocaleKey::DisplayModeCompact.put(r);
        LocaleKey::DisplayModeMinimal.put(r);
    }

    fn put_from_512(r: &mut Vec<(LocaleKey, &'static str)>)
        requires
            old(r)@.len() == 512,
            listed(old(r)@),
        ensures
            final(r)@.len() == 576,
            listed(final(r)@),
    {
        LocaleKey::WindowScaleLabel.put(r);
        LocaleKey::WindowScaleHelper.put(r);
        LocaleKey::WindowScaleAriaLabel.put(r);
        LocaleKey::WindowMinimize.put(r);
        LocaleKey::WindowMaximize.put(r);
        LocaleKey::WindowRestore.put(r);
        LocaleKey::WindowClose.put(r);
        LocaleKey::ShowAsUsedLabel.put(r);
        LocaleKey::ShowAsUsedHelper.put(r);
        LocaleKey::ShowAllTokenAccountsLabel.put(r);
        LocaleKey::ShowAllTokenAccountsHelper.put(r);
        LocaleKey::EnableAnimationsLabel.put(r);
        LocaleKey::EnableAnimationsHelper.put(r);
        LocaleKey::UpdateChannelStableOption.put(r);
        LocaleKey::UpdateChannelBetaOption.put(r);
        LocaleKey::CodexLocalLogsTitle.put(r);
        LocaleKey::CodexLocalLogsCaption.put(r);
        LocaleKey::CodexLogPathsLabel.put(r);
        LocaleKey::CodexLogPathsHelper.put(r);
        LocaleKey::AvoidKeychainPromptsLabel.put(r);
        LocaleKey::AvoidKeychainPromptsHelper.put(r);
        LocaleKey::DisableAllKeychainLabel.put(r);
        LocaleKey::DisableAllKeychainHelper.put(r);
        LocaleKey::SectionTheme.put(r);
        LocaleKey::ThemeLabel.put(r);
        LocaleKey::ThemeHelper.put(r);
        LocaleKey::ThemeAutoOption.put(r);
        LocaleKey::ThemeLightOption.put(r);
        LocaleKey::ThemeDarkOption.put(r);
        LocaleKey::SettingsStatusSaving.put(r);
        LocaleKey::ApiKeysTabHint.put(r);
        LocaleKey::FetchingProviderData.put(r);
        LocaleKey::NoProvidersConfigured.put(r);
        LocaleKey::EnableProvidersHint.put(r);
        LocaleKey::OpenSettingsButton.put(r);
        LocaleKey::TooltipRefresh.put(r);
        LocaleKey::TooltipSettings.put(r);
        LocaleKey::TooltipPopOut.put(r);
        LocaleKey::TooltipBackToTray.put(r);
        LocaleKey::TrayCardErrorBadge.put(r);
        LocaleKey::SummaryProvidersLabel.put(r);
        LocaleKey::SummaryRefreshing.put(r);
        LocaleKey::SummaryFailed.put(r);
        LocaleKey::SummaryWithErrors.put(r);
        LocaleKey::DetailBackButton.put(r);
        LocaleKey::DetailWindowPrimary.put(r);
        LocaleKey::DetailWindowSecondary.put(r);
        LocaleKey::DetailWindowModelSpecific.put(r);
        LocaleKey::DetailWindowTertiary.put(r);
        LocaleKey::DetailWindowMinutesSuffix.put(r);
        LocaleKey::DetailWindowExhausted.put(r);
        LocaleKey::DetailPaceTitle.put(r);
        LocaleKey::DetailPaceOnTrack.put(r);
        LocaleKey::DetailPaceSlightlyAhead.put(r);
        LocaleKey::DetailPaceAhead.put(r);
        LocaleKey::DetailPaceFarAhead.put(r);
        LocaleKey::DetailPaceSlightlyBehind.put(r);
        LocaleKey::DetailPaceBehind.put(r);
        LocaleKey::DetailPaceFarBehind.put(r);
        LocaleKey::DetailPaceRunsOutIn.put(r);
        LocaleKey::DetailPaceWillLastToReset.put(r);
        LocaleKey::DetailCostTitle.put(r);
        LocaleKey::DetailCostUsed.put(r);
        LocaleKey::DetailCostLimit.put(r);
    }

    fn put_from_576(r: &mut Vec<(LocaleKey, &'static str)>)
        requires
            old(r)@.len() == 576,
            listed(old(r)@),
        ensures
            final(r)@.len() == 640,
            listed(final(r)@),
    {
        LocaleKey::DetailCostRemaining.put(r);
        LocaleKey::DetailCostBalance.put(r);
        LocaleKey::DetailCostResets.put(r);
        LocaleKey::DetailChartCost.put(r);
        LocaleKey::DetailChartTokens.put(r);
        LocaleKey::DetailChartRefreshing.put(r);
        LocaleKey::DetailChartCredits.put(r);
        LocaleKey::DetailChartUsageBreakdown.put(r);
        LocaleKey::DetailChartEmpty.put(r);
        LocaleKey::DetailUpdatedPrefix.put(r);
        LocaleKey::PanelAllProviders.put(r);
        LocaleKey::PanelAllProvidersShort.put(r);
        LocaleKey::PanelShowAllProviders.put(r);
        LocaleKey::PanelShowFewerProviders.put(r);
        LocaleKey::PanelZoom.put(r);
        LocaleKey::PanelMenu.put(r);
        LocaleKey::PanelCopied.put(r);
        LocaleKey::PanelToday.put(r);
        LocaleKey::PanelThirtyDayCost.put(r);
        LocaleKey::PanelThirtyDayTokens.put(r);
        LocaleKey::PanelLatestTokens.put(r);
        LocaleKey::PanelThirtyDayCostHistogram.put(r);
        LocaleKey::PanelTopModelPrefix.put(r);
        LocaleKey::PanelEstimatedFromLocalLogs.put(r);
        LocaleKey::PanelEstimatedFromLocalLogsClaude.put(r);
        LocaleKey::PanelExpected.put(r);
        LocaleKey::PanelActual.put(r);
        LocaleKey::PanelUsedSuffix.put(r);
        LocaleKey::PanelLeftSuffix.put(r);
        LocaleKey::PanelOnPaceBudget.put(r);
        LocaleKey::PanelNow.put(r);
        LocaleKey::PanelOneHour.put(r);
        LocaleKey::PanelFiveHours.put(r);
        LocaleKey::PanelTodayBudget.put(r);
        LocaleKey::PanelReserveSuffix.put(r);
        LocaleKey::PanelReserveLastsUntilReset.put(r);
        LocaleKey::PanelReserveRunsOutInDaysHours.put(r);
        LocaleKey::PanelReserveRunsOutInHours.put(r);
        LocaleKey::FloatBarThirtyDayShort.put(r);
        LocaleKey::FloatBarNoProviders.put(r);
        LocaleKey::FloatBarRemainingSuffix.put(r);
        LocaleKey::FloatBarShowCost.put(r);
        LocaleKey::FloatBarShowCostDescription.put(r);
        LocaleKey::BannerCheckingForUpdates.put(r);
        LocaleKey::BannerUpdateAvailablePrefix.put(r);
        LocaleKey::BannerDownloadButton.put(r);
        LocaleKey::BannerViewRelease.put(r);
        LocaleKey::BannerDismiss.put(r);
        LocaleKey::BannerDownloadingPrefix.put(r);
        LocaleKey::BannerReadyToInstallSuffix.put(r);
        LocaleKey::BannerInstallRestart.put(r);
        LocaleKey::BannerUpdateFailedPrefix.put(r);
        LocaleKey::BannerRetry.put(r);
        LocaleKey::ProviderSidebarSearch.put(r);
        LocaleKey::ProviderSidebarClearSearch.put(r);
        LocaleKey::ProviderSidebarNoMatches.put(r);
        LocaleKey::ProviderSidebarReorderHint.put(r);
        LocaleKey::ProviderSidebarMoveUp.put(r);
        LocaleKey::ProviderSidebarMoveDown.put(r);
        LocaleKey::ProviderStatusOk.put(r);
        LocaleKey::ProviderStatusStale.put(r);
        LocaleKey::ProviderStatusError.put(r);
        LocaleKey::ProviderStatusLoading.put(r);
        LocaleKey::ProviderStatusDisabled.put(r);
    }

    fn put_from_640(r: &mut Vec<(LocaleKey, &'static str)>)
        requires
            old(r)@.len() == 640,
            listed(old(r)@),
        ensures
            final(r)@.len() == 704,
            listed(final(r)@),
    {
        LocaleKey::ProviderDetailPlaceholder.put(r);
        LocaleKey::ProviderIssueNeedsSignIn.put(r);
        LocaleKey::ProviderIssueFetchNeedsAttention.put(r);
        LocaleKey::ProviderIssueCopy.put(r);
        LocaleKey::ProviderIssueUnsupportedSourceModePrefix.put(r);
        LocaleKey::ProviderIssueAuthRequired.put(r);
        LocaleKey::ProviderIssueSessionExpired.put(r);
        LocaleKey::ProviderIssueLocalRuntimeOffline.put(r);
        LocaleKey::ProviderIssueUnknown.put(r);
        LocaleKey::ProviderIssuePrivacySafeDetail.put(r);
        LocaleKey::CredentialStorageTitle.put(r);
        LocaleKey::CredentialRevokeStored.put(r);
        LocaleKey::CredentialApiKeys.put(r);
        LocaleKey::CredentialManualCookies.put(r);
        LocaleKey::CredentialTokenAccounts.put(r);
        LocaleKey::CredentialProtectedPrefix.put(r);
        LocaleKey::CredentialStatusNotCreated.put(r);
        LocaleKey::CredentialStatusPlaintext.put(r);
        LocaleKey::CredentialStatusUnavailable.put(r);
        LocaleKey::CredentialStatusUnreadable.put(r);
        LocaleKey::BrowserCookiesSectionTitle.put(r);
        LocaleKey::BrowserCookieNoneSaved.put(r);
        LocaleKey::BrowserCookieSavedBadge.put(r);
        LocaleKey::BrowserCookieRemove.put(r);
        LocaleKey::BrowserCookieImportSuccess.put(r);
        LocaleKey::BrowserCookieImportFromBrowser.put(r);
        LocaleKey::BrowserCookieProfileSingular.put(r);
        LocaleKey::BrowserCookieProfilePlural.put(r);
        LocaleKey::BrowserCookiePlaceholderDefault.put(r);
        LocaleKey::BrowserCookiePlaceholderOllama.put(r);
        LocaleKey::BrowserCookiePlaceholderCurl.put(r);
        LocaleKey::BrowserCookieSave.put(r);
        LocaleKey::CredentialsSectionTitle.put(r);
        LocaleKey::CredsStatusAuthenticated.put(r);
        LocaleKey::CredsStatusNotSignedIn.put(r);
        LocaleKey::CredsStatusDetected.put(r);
        LocaleKey::CredsStatusNotDetected.put(r);
        LocaleKey::CredsStatusAvailable.put(r);
        LocaleKey::CredsStatusUnavailable.put(r);
        LocaleKey::CredsOpenFolderAction.put(r);
        LocaleKey::CredsRefreshDetectionAction.put(r);
        LocaleKey::CredsSavePathAction.put(r);
        LocaleKey::CredsBrowseAction.put(r);
        LocaleKey::CredsGeminiCliLabel.put(r);
        LocaleKey::CredsGeminiCliHelperPrefix.put(r);
        LocaleKey::CredsGeminiCliSetupAction.put(r);
        LocaleKey::CredsGeminiCliSetupHelp.put(r);
        LocaleKey::CredsVertexAiLabel.put(r);
        LocaleKey::CredsVertexAiHelperPrefix.put(r);
        LocaleKey::CredsVertexAiSetupAction.put(r);
        LocaleKey::CredsVertexAiSetupHelp.put(r);
        LocaleKey::CredsJetBrainsLabel.put(r);
        LocaleKey::CredsJetBrainsHelperDetectedPrefix.put(r);
        LocaleKey::CredsJetBrainsHelperCustomPrefix.put(r);
        LocaleKey::CredsJetBrainsHelperMissing.put(r);
        LocaleKey::CredsJetBrainsCustomPathLabel.put(r);
        LocaleKey::CredsJetBrainsCustomPathPlaceholder.put(r);
        LocaleKey::CredsJetBrainsSelectLabel.put(r);
        LocaleKey::CredsJetBrainsAutoDetectOption.put(r);
        LocaleKey::CredsKiroLabel.put(r);
        LocaleKey::CredsKiroHelperAvailablePrefix.put(r);
        LocaleKey::CredsKiroHelperMissing.put(r);
        LocaleKey::OpenCodeGoWorkspaceTitle.put(r);
        LocaleKey::OpenCodeGoWorkspaceLabel.put(r);
    }

    fn put_from_704(r: &mut Vec<(LocaleKey, &'static str)>)
        requires
            old(r)@.len() == 704,
            listed(old(r)@),
        ensures
            final(r)@.len() == 768,
            listed(final(r)@),
    {
        LocaleKey::OpenCodeGoWorkspaceHelp.put(r);
        LocaleKey::OpenRouterManagementKeyTitle.put(r);
        LocaleKey::OpenRouterManagementKeyLabel.put(r);
        LocaleKey::OpenRouterManagementKeyHelp.put(r);
        LocaleKey::OpenRouterManagementKeyConfigured.put(r);
        LocaleKey::CredsOpenAiHistoryHelp.put(r);
        LocaleKey::TokenAccountActive.put(r);
        LocaleKey::TokenAccountSetActive.put(r);
        LocaleKey::TokenAccountRemove.put(r);
        LocaleKey::TokenAccountAddButton.put(r);
        LocaleKey::TokenAccountGithubLoginButton.put(r);
        LocaleKey::TokenAccountEmpty.put(r);
        LocaleKey::TokenAccountLabelPlaceholder.put(r);
        LocaleKey::TokenAccountProviderLabel.put(r);
        LocaleKey::TokenAccountProviderPlaceholder.put(r);
        LocaleKey::TokenAccountAddedPrefix.put(r);
        LocaleKey::TokenAccountUsedPrefix.put(r);
        LocaleKey::TokenAccountTabHint.put(r);
        LocaleKey::TokenAccountNoSupported.put(r);
        LocaleKey::TokenAccountInlineSummary.put(r);
        LocaleKey::TrayPaceBadgeSlow.put(r);
        LocaleKey::TrayPaceBadgeSteady.put(r);
        LocaleKey::TrayPaceBadgeRacing.put(r);
        LocaleKey::TrayPaceBadgeBurning.put(r);
        LocaleKey::TrayResetsInLabel.put(r);
        LocaleKey::TrayResetsDueNow.put(r);
        LocaleKey::FloatBarSectionTitle.put(r);
        LocaleKey::FloatBarShowFloatingBar.put(r);
        LocaleKey::FloatBarShowFloatingBarHelper.put(r);
        LocaleKey::FloatBarOrientation.put(r);
        LocaleKey::FloatBarOrientationHelper.put(r);
        LocaleKey::FloatBarOrientationHorizontal.put(r);
        LocaleKey::FloatBarOrientationVertical.put(r);
        LocaleKey::FloatBarStyle.put(r);
        LocaleKey::FloatBarStyleHelper.put(r);
        LocaleKey::FloatBarStyleFloating.put(r);
        LocaleKey::FloatBarStyleTaskbar.put(r);
        LocaleKey::FloatBarOpacity.put(r);
        LocaleKey::FloatBarOpacityHelper.put(r);
        LocaleKey::FloatBarOpacityAriaLabel.put(r);
        LocaleKey::FloatBarSize.put(r);
        LocaleKey::FloatBarSizeHelper.put(r);
        LocaleKey::FloatBarSizeAriaLabel.put(r);
        LocaleKey::FloatBarShowResetInline.put(r);
        LocaleKey::FloatBarShowResetInlineHelper.put(r);
        LocaleKey::FloatBarInvertColors.put(r);
        LocaleKey::FloatBarInvertColorsHelper.put(r);
        LocaleKey::FloatBarClickThrough.put(r);
        LocaleKey::FloatBarClickThroughHelper.put(r);
        LocaleKey::AppName.put(r);
        LocaleKey::SettingsWindowTitle.put(r);
        LocaleKey::ErrorPrefix.put(r);
        LocaleKey::AboutLoading.put(r);
        LocaleKey::AboutCheckForUpdates.put(r);
        LocaleKey::AboutChecking.put(r);
        LocaleKey::AboutUpToDate.put(r);
        LocaleKey::AboutCopyrightBefore.put(r);
        LocaleKey::AboutCopyrightAfter.put(r);
        LocaleKey::AboutLinkGitHub.put(r);
        LocaleKey::AboutLinkWebsite.put(r);
        LocaleKey::AboutLinkOriginalProject.put(r);
        LocaleKey::DiagnosticsSectionHeading.put(r);
        LocaleKey::DiagnosticsCopyButton.put(r);
        LocaleKey::DiagnosticsCopied.put(r);
    }

    fn put_from_768(r: &mut Vec<(LocaleKey, &'static str)>)
        requires
            old(r)@.len() == 768,
            listed(old(r)@),
        ensures
            final(r)@.len() == 832,
            listed(final(r)@),
    {
        LocaleKey::DiagnosticsCopyFailed.put(r);
        LocaleKey::SavedCookiesHint.put(r);
        LocaleKey::ImportFromBrowserHint.put(r);
        LocaleKey::NoBrowsersDetectedHint.put(r);
        LocaleKey::CookieHeaderValuePlaceholder.put(r);
        LocaleKey::ApiKeyTitle.put(r);
        LocaleKey::ApiKeyNotSet.put(r);
        LocaleKey::ApiKeyUpdate.put(r);
        LocaleKey::ApiKeyLabelOptional.put(r);
        LocaleKey::BootstrapFailed.put(r);
        LocaleKey::LoadingShellContract.put(r);
        LocaleKey::LoadingShellContractHint.put(r);
        LocaleKey::RefreshIntervalManual.put(r);
        LocaleKey::RefreshIntervalAdaptive.put(r);
        LocaleKey::RefreshInterval15Min.put(r);
        LocaleKey::RefreshInterval30Min.put(r);
        LocaleKey::RefreshInterval1Hour.put(r);
        LocaleKey::ProviderNameCodex.put(r);
        LocaleKey::ProviderNameClaude.put(r);
        LocaleKey::AgentSessionsProviderPi.put(r);
        LocaleKey::AgentSessionsProviderOmp.put(r);
        LocaleKey::ProvidersAriaLabel.put(r);
        LocaleKey::WaitingForUsage.put(r);
        LocaleKey::TokenAccountTokenPlaceholder.put(r);
        LocaleKey::ProviderPlanClaudeAi.put(r);
        LocaleKey::PaceChartAriaLabel.put(r);
        LocaleKey::PaceChartLegendAverageSoFar.put(r);
        LocaleKey::PaceChartLegendIdealPace.put(r);
        LocaleKey::PaceChartLegendProjection.put(r);
        LocaleKey::BarChartAriaLabel.put(r);
        LocaleKey::StackedBarChartAriaLabel.put(r);
        LocaleKey::OpenAiAdminApiTitle.put(r);
        LocaleKey::OpenAiProjectIdLabel.put(r);
        LocaleKey::OpenAiProjectIdPlaceholder.put(r);
        LocaleKey::OpenAiProjectIdHelp.put(r);
        LocaleKey::LiteLlmApiTitle.put(r);
        LocaleKey::LiteLlmBaseUrlLabel.put(r);
        LocaleKey::LiteLlmBaseUrlPlaceholder.put(r);
        LocaleKey::LiteLlmBaseUrlHelp.put(r);
        LocaleKey::DevinApiTitle.put(r);
        LocaleKey::DevinOrganizationLabel.put(r);
        LocaleKey::DevinOrganizationPlaceholder.put(r);
        LocaleKey::DevinOrganizationHelp.put(r);
        LocaleKey::ZedApiTitle.put(r);
        LocaleKey::ZedApiUrlLabel.put(r);
        LocaleKey::ZedApiUrlPlaceholder.put(r);
        LocaleKey::ZedApiUrlHelp.put(r);
        LocaleKey::Sub2ApiTitle.put(r);
        LocaleKey::Sub2ApiBaseUrlLabel.put(r);
        LocaleKey::Sub2ApiBaseUrlPlaceholder.put(r);
        LocaleKey::Sub2ApiBaseUrlHelp.put(r);
        LocaleKey::PromoteTrayIconLabel.put(r);
        LocaleKey::PromoteTrayIconHelper.put(r);
        LocaleKey::PromoteTrayIconUnsupportedHint.put(r);
        LocaleKey::MistralMonthlySpend.put(r);
        LocaleKey::MistralMonthlySpendHelper.put(r);
        LocaleKey::CostSummaryDisplayStyle.put(r);
        LocaleKey::CostSummaryDisplayStyleHelper.put(r);
        LocaleKey::CostSummaryStyleCompact.put(r);
        LocaleKey::CostSummaryStyleDetailed.put(r);
        LocaleKey::CostSummaryStyleHidden.put(r);
        LocaleKey::ProviderAccentColor.put(r);
        LocaleKey::ProviderAccentColorHelper.put(r);
        LocaleKey::ProviderAccentColorReset.put(r);
    }
}

/// Whether each key stands at its place, with its name.
pub open spec fn listed(entries: Seq<(LocaleKey, &'static str)>) -> bool {
    forall|i: int|
        0 <= i < entries.len() ==> (#[trigger] entries[i]).0.place() == i && entries[i].1@
            == entries[i].0.label()
}

} // verus!
