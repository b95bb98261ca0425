use webshield::i18n::{tr, Lang, M};

/// The `{name}` placeholders of a text, each once, sorted.
fn holes(s: &str) -> Vec<String> {
    let mut out = Vec::new();
    let mut rest = s;
    while let Some(open) = rest.find('{') {
        let after = &rest[open + 1..];
        match after.find('}') {
            Some(close) => {
                out.push(after[..close].to_string());
                rest = &after[close + 1..];
            }
            None => break,
        }
    }
    out.sort();
    out.dedup();
    out
}

#[test]
fn every_message_has_both_texts_with_the_same_placeholders() {
    let all = [
        M::AppAbout,
        M::CmdAuth,
        M::CmdDomains,
        M::CmdDns,
        M::CmdSites,
        M::CmdProxy,
        M::CmdStats,
        M::CmdBilling,
        M::CmdCompletion,
        M::Yes,
        M::No,
        M::Dash,
        M::Empty,
        M::HValue,
        M::ErrorPrefix,
        M::ConfirmSuffix,
        M::ConfirmCancelled,
        M::TokenPrompt,
        M::TokenWarnPrefix,
        M::LblProfile,
        M::LblApiUrl,
        M::LblToken,
        M::LblAccess,
        M::LblLang,
        M::TokenSet,
        M::TokenUnset,
        M::LoginHint,
        M::TokenSavedOk,
        M::TokenSavedScoped,
        M::TokenSavedCode,
        M::TokenSavedProbeFail,
        M::TokenRemoved,
        M::ProfileNotFound,
        M::AccessOk,
        M::AccessInvalid,
        M::AccessForbidden,
        M::AccessUnexpected,
        M::NoToken,
        M::HId,
        M::HDomain,
        M::HDelegated,
        M::HTariff,
        M::DomainCreated,
        M::DomainDeleted,
        M::DomainNotFound,
        M::ConfirmDeleteDomain,
        M::DelegationOk,
        M::DelegationNotDelegated,
        M::DelegationCurrentNs,
        M::DelegationMissingNs,
        M::DelegationExtraNs,
        M::DelegationNoNs,
        M::DelegationUnknown,
        M::DelegationPropagationNote,
        M::HName,
        M::HType,
        M::HTtl,
        M::HProxy,
        M::HValues,
        M::DnsAdded,
        M::DnsSet,
        M::DnsRemoved,
        M::RecordNotFound,
        M::NothingToDelete,
        M::HHost,
        M::HStatus,
        M::HVersion,
        M::HSize,
        M::HPath,
        M::HEtag,
        M::SiteCreated,
        M::SiteDisabled,
        M::PublishSummary,
        M::PublishNoChanges,
        M::PublishDryRun,
        M::Published,
        M::BucketPublishStarted,
        M::BucketPublished,
        M::BucketPublishFailed,
        M::BucketPublishTimeout,
        M::DeletedFiles,
        M::UploadBar,
        M::NotFoundSite,
        M::PublishNeedsSiteRef,
        M::NotADir,
        M::DirNotFound,
        M::HMode,
        M::HTarget,
        M::HSsl,
        M::HBotProt,
        M::ProxyCreated,
        M::ProxyUpdated,
        M::ProxyRemoved,
        M::ConfirmRemoveProxy,
        M::NotFoundProxy,
        M::HCurrency,
        M::HBalance,
        M::HMetric,
        M::HIp,
        M::HReason,
        M::HLastSeen,
        M::HRequests,
        M::NoBans,
        M::ErrNetwork,
        M::ErrParse,
        M::ErrUnauthorized,
        M::ErrForbidden,
    ];
    for m in all {
        let en = tr(Lang::En, m);
        let ru = tr(Lang::Ru, m);
        assert!(!en.is_empty() && !ru.is_empty(), "{m:?}");
        assert_eq!(holes(en), holes(ru), "{m:?}");
    }
}
