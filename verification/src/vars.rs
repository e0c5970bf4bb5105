//! Secrets, variables and environments shared by the generated workflows,
//! the path conditions that guard jobs, and the inputs of manually triggered
//! workflows.

use crate::gh::{
    decimal_text, entries_insert, env_add_number, env_add_text, env_default, env_entries,
    json_plain, json_quoted,
};
use crate::gh::{
    job_add_needs, job_needs, job_rest, job_set_condition, job_timeout_minutes, job_view,
    needs_after_add,
};
use crate::jobs::NamedJob;
use crate::runners::Platform;
use gh_workflow::Env;
use vstd::string::StringExecFns;
use vstd::prelude::*;

pub mod assets;

verus! {

/// The expression under which GitHub Actions reads a repository secret.
pub open spec fn secret_expr(name: Seq<char>) -> Seq<char> {
    "${{ secrets."@ + name + " }}"@
}

/// The expression under which GitHub Actions reads a repository variable.
pub open spec fn var_expr(name: Seq<char>) -> Seq<char> {
    "${{ vars."@ + name + " }}"@
}

pub const APPLE_NOTARIZATION_ISSUER_ID: &'static str = "${{ secrets.APPLE_NOTARIZATION_ISSUER_ID }}";
pub const APPLE_NOTARIZATION_KEY: &'static str = "${{ secrets.APPLE_NOTARIZATION_KEY }}";
pub const APPLE_NOTARIZATION_KEY_ID: &'static str = "${{ secrets.APPLE_NOTARIZATION_KEY_ID }}";
pub const AZURE_SIGNING_CLIENT_ID: &'static str = "${{ secrets.AZURE_SIGNING_CLIENT_ID }}";
pub const AZURE_SIGNING_CLIENT_SECRET: &'static str = "${{ secrets.AZURE_SIGNING_CLIENT_SECRET }}";
pub const AZURE_SIGNING_TENANT_ID: &'static str = "${{ secrets.AZURE_SIGNING_TENANT_ID }}";
pub const CACHIX_AUTH_TOKEN: &'static str = "${{ secrets.CACHIX_AUTH_TOKEN }}";
pub const GITHUB_TOKEN: &'static str = "${{ secrets.GITHUB_TOKEN }}";
pub const MACOS_CERTIFICATE: &'static str = "${{ secrets.MACOS_CERTIFICATE }}";
pub const MACOS_CERTIFICATE_PASSWORD: &'static str = "${{ secrets.MACOS_CERTIFICATE_PASSWORD }}";
pub const SENTRY_AUTH_TOKEN: &'static str = "${{ secrets.SENTRY_AUTH_TOKEN }}";
pub const ZED_CLIENT_CHECKSUM_SEED: &'static str = "${{ secrets.ZED_CLIENT_CHECKSUM_SEED }}";
pub const ZED_CLOUD_PROVIDER_ADDITIONAL_MODELS_JSON: &'static str = "${{ secrets.ZED_CLOUD_PROVIDER_ADDITIONAL_MODELS_JSON }}";
pub const ZED_SENTRY_MINIDUMP_ENDPOINT: &'static str = "${{ secrets.ZED_SENTRY_MINIDUMP_ENDPOINT }}";
pub const R2_ACCOUNT_ID: &'static str = "${{ secrets.R2_ACCOUNT_ID }}";
pub const R2_ACCESS_KEY_ID: &'static str = "${{ secrets.R2_ACCESS_KEY_ID }}";
pub const R2_SECRET_ACCESS_KEY: &'static str = "${{ secrets.R2_SECRET_ACCESS_KEY }}";

pub const AZURE_SIGNING_ACCOUNT_NAME: &'static str = "${{ vars.AZURE_SIGNING_ACCOUNT_NAME }}";
pub const AZURE_SIGNING_CERT_PROFILE_NAME: &'static str = "${{ vars.AZURE_SIGNING_CERT_PROFILE_NAME }}";
pub const AZURE_SIGNING_ENDPOINT: &'static str = "${{ vars.AZURE_SIGNING_ENDPOINT }}";

/// Every secret constant is the expression that reads the repository
/// secret of the same name, and every variable constant the expression that
/// reads the repository variable of the same name.
pub proof fn lemma_secret_and_var_references()
    ensures
        APPLE_NOTARIZATION_ISSUER_ID@ == secret_expr("APPLE_NOTARIZATION_ISSUER_ID"@),
        APPLE_NOTARIZATION_KEY@ == secret_expr("APPLE_NOTARIZATION_KEY"@),
        APPLE_NOTARIZATION_KEY_ID@ == secret_expr("APPLE_NOTARIZATION_KEY_ID"@),
        AZURE_SIGNING_CLIENT_ID@ == secret_expr("AZURE_SIGNING_CLIENT_ID"@),
        AZURE_SIGNING_CLIENT_SECRET@ == secret_expr("AZURE_SIGNING_CLIENT_SECRET"@),
        AZURE_SIGNING_TENANT_ID@ == secret_expr("AZURE_SIGNING_TENANT_ID"@),
        CACHIX_AUTH_TOKEN@ == secret_expr("CACHIX_AUTH_TOKEN"@),
        GITHUB_TOKEN@ == secret_expr("GITHUB_TOKEN"@),
        MACOS_CERTIFICATE@ == secret_expr("MACOS_CERTIFICATE"@),
        MACOS_CERTIFICATE_PASSWORD@ == secret_expr("MACOS_CERTIFICATE_PASSWORD"@),
        SENTRY_AUTH_TOKEN@ == secret_expr("SENTRY_AUTH_TOKEN"@),
        ZED_CLIENT_CHECKSUM_SEED@ == secret_expr("ZED_CLIENT_CHECKSUM_SEED"@),
        ZED_CLOUD_PROVIDER_ADDITIONAL_MODELS_JSON@ == secret_expr("ZED_CLOUD_PROVIDER_ADDITIONAL_MODELS_JSON"@),
        ZED_SENTRY_MINIDUMP_ENDPOINT@ == secret_expr("ZED_SENTRY_MINIDUMP_ENDPOINT"@),
        R2_ACCOUNT_ID@ == secret_expr("R2_ACCOUNT_ID"@),
        R2_ACCESS_KEY_ID@ == secret_expr("R2_ACCESS_KEY_ID"@),
        R2_SECRET_ACCESS_KEY@ == secret_expr("R2_SECRET_ACCESS_KEY"@),
        AZURE_SIGNING_ACCOUNT_NAME@ == var_expr("AZURE_SIGNING_ACCOUNT_NAME"@),
        AZURE_SIGNING_CERT_PROFILE_NAME@ == var_expr("AZURE_SIGNING_CERT_PROFILE_NAME"@),
        AZURE_SIGNING_ENDPOINT@ == var_expr("AZURE_SIGNING_ENDPOINT"@),
{
    reveal_strlit("${{ secrets.");
    reveal_strlit("${{ vars.");
    reveal_strlit(" }}");
    reveal_strlit("APPLE_NOTARIZATION_ISSUER_ID");
    reveal_strlit("${{ secrets.APPLE_NOTARIZATION_ISSUER_ID }}");
    assert(APPLE_NOTARIZATION_ISSUER_ID@ =~= secret_expr("APPLE_NOTARIZATION_ISSUER_ID"@));
    reveal_strlit("APPLE_NOTARIZATION_KEY");
    reveal_strlit("${{ secrets.APPLE_NOTARIZATION_KEY }}");
    assert(APPLE_NOTARIZATION_KEY@ =~= secret_expr("APPLE_NOTARIZATION_KEY"@));
    reveal_strlit("APPLE_NOTARIZATION_KEY_ID");
    reveal_strlit("${{ secrets.APPLE_NOTARIZATION_KEY_ID }}");
    assert(APPLE_NOTARIZATION_KEY_ID@ =~= secret_expr("APPLE_NOTARIZATION_KEY_ID"@));
    reveal_strlit("AZURE_SIGNING_CLIENT_ID");
    reveal_strlit("${{ secrets.AZURE_SIGNING_CLIENT_ID }}");
    assert(AZURE_SIGNING_CLIENT_ID@ =~= secret_expr("AZURE_SIGNING_CLIENT_ID"@));
    reveal_strlit("AZURE_SIGNING_CLIENT_SECRET");
    reveal_strlit("${{ secrets.AZURE_SIGNING_CLIENT_SECRET }}");
    assert(AZURE_SIGNING_CLIENT_SECRET@ =~= secret_expr("AZURE_SIGNING_CLIENT_SECRET"@));
    reveal_strlit("AZURE_SIGNING_TENANT_ID");
    reveal_strlit("${{ secrets.AZURE_SIGNING_TENANT_ID }}");
    assert(AZURE_SIGNING_TENANT_ID@ =~= secret_expr("AZURE_SIGNING_TENANT_ID"@));
    reveal_strlit("CACHIX_AUTH_TOKEN");
    reveal_strlit("${{ secrets.CACHIX_AUTH_TOKEN }}");
    assert(CACHIX_AUTH_TOKEN@ =~= secret_expr("CACHIX_AUTH_TOKEN"@));
    reveal_strlit("GITHUB_TOKEN");
    reveal_strlit("${{ secrets.GITHUB_TOKEN }}");
    assert(GITHUB_TOKEN@ =~= secret_expr("GITHUB_TOKEN"@));
    reveal_strlit("MACOS_CERTIFICATE");
    reveal_strlit("${{ secrets.MACOS_CERTIFICATE }}");
    assert(MACOS_CERTIFICATE@ =~= secret_expr("MACOS_CERTIFICATE"@));
    reveal_strlit("MACOS_CERTIFICATE_PASSWORD");
    reveal_strlit("${{ secrets.MACOS_CERTIFICATE_PASSWORD }}");
    assert(MACOS_CERTIFICATE_PASSWORD@ =~= secret_expr("MACOS_CERTIFICATE_PASSWORD"@));
    reveal_strlit("SENTRY_AUTH_TOKEN");
    reveal_strlit("${{ secrets.SENTRY_AUTH_TOKEN }}");
    assert(SENTRY_AUTH_TOKEN@ =~= secret_expr("SENTRY_AUTH_TOKEN"@));
    reveal_strlit("ZED_CLIENT_CHECKSUM_SEED");
    reveal_strlit("${{ secrets.ZED_CLIENT_CHECKSUM_SEED }}");
    assert(ZED_CLIENT_CHECKSUM_SEED@ =~= secret_expr("ZED_CLIENT_CHECKSUM_SEED"@));
    reveal_strlit("ZED_CLOUD_PROVIDER_ADDITIONAL_MODELS_JSON");
    reveal_strlit("${{ secrets.ZED_CLOUD_PROVIDER_ADDITIONAL_MODELS_JSON }}");
    assert(ZED_CLOUD_PROVIDER_ADDITIONAL_MODELS_JSON@ =~= secret_expr("ZED_CLOUD_PROVIDER_ADDITIONAL_MODELS_JSON"@));
    reveal_strlit("ZED_SENTRY_MINIDUMP_ENDPOINT");
    reveal_strlit("${{ secrets.ZED_SENTRY_MINIDUMP_ENDPOINT }}");
    assert(ZED_SENTRY_MINIDUMP_ENDPOINT@ =~= secret_expr("ZED_SENTRY_MINIDUMP_ENDPOINT"@));
    reveal_strlit("R2_ACCOUNT_ID");
    reveal_strlit("${{ secrets.R2_ACCOUNT_ID }}");
    assert(R2_ACCOUNT_ID@ =~= secret_expr("R2_ACCOUNT_ID"@));
    reveal_strlit("R2_ACCESS_KEY_ID");
    reveal_strlit("${{ secrets.R2_ACCESS_KEY_ID }}");
    assert(R2_ACCESS_KEY_ID@ =~= secret_expr("R2_ACCESS_KEY_ID"@));
    reveal_strlit("R2_SECRET_ACCESS_KEY");
    reveal_strlit("${{ secrets.R2_SECRET_ACCESS_KEY }}");
    assert(R2_SECRET_ACCESS_KEY@ =~= secret_expr("R2_SECRET_ACCESS_KEY"@));
    reveal_strlit("AZURE_SIGNING_ACCOUNT_NAME");
    reveal_strlit("${{ vars.AZURE_SIGNING_ACCOUNT_NAME }}");
    assert(AZURE_SIGNING_ACCOUNT_NAME@ =~= var_expr("AZURE_SIGNING_ACCOUNT_NAME"@));
    reveal_strlit("AZURE_SIGNING_CERT_PROFILE_NAME");
    reveal_strlit("${{ vars.AZURE_SIGNING_CERT_PROFILE_NAME }}");
    assert(AZURE_SIGNING_CERT_PROFILE_NAME@ =~= var_expr("AZURE_SIGNING_CERT_PROFILE_NAME"@));
    reveal_strlit("AZURE_SIGNING_ENDPOINT");
    reveal_strlit("${{ vars.AZURE_SIGNING_ENDPOINT }}");
    assert(AZURE_SIGNING_ENDPOINT@ =~= var_expr("AZURE_SIGNING_ENDPOINT"@));
}

/// An environment entry whose value is a string.
pub open spec fn text_entry(key: Seq<char>, value: Seq<char>) -> (Seq<char>, Seq<char>) {
    (key, json_quoted(value))
}

/// The variables that every bundling job gets, whatever the platform.
pub open spec fn common_bundle_entries() -> Seq<(Seq<char>, Seq<char>)> {
    seq![
        ("CARGO_INCREMENTAL"@, decimal_text(0)),
        text_entry("ZED_CLIENT_CHECKSUM_SEED"@, ZED_CLIENT_CHECKSUM_SEED@),
        text_entry("ZED_MINIDUMP_ENDPOINT"@, ZED_SENTRY_MINIDUMP_ENDPOINT@),
    ]
}

/// The variables that macOS bundling adds: code signing and notarization.
pub open spec fn mac_bundle_entries() -> Seq<(Seq<char>, Seq<char>)> {
    seq![
        text_entry("MACOS_CERTIFICATE"@, MACOS_CERTIFICATE@),
        text_entry("MACOS_CERTIFICATE_PASSWORD"@, MACOS_CERTIFICATE_PASSWORD@),
        text_entry("APPLE_NOTARIZATION_KEY"@, APPLE_NOTARIZATION_KEY@),
        text_entry("APPLE_NOTARIZATION_KEY_ID"@, APPLE_NOTARIZATION_KEY_ID@),
        text_entry("APPLE_NOTARIZATION_ISSUER_ID"@, APPLE_NOTARIZATION_ISSUER_ID@),
    ]
}

/// The variables that Windows bundling adds: Azure code signing.
pub open spec fn windows_bundle_entries() -> Seq<(Seq<char>, Seq<char>)> {
    seq![
        text_entry("AZURE_TENANT_ID"@, AZURE_SIGNING_TENANT_ID@),
        text_entry("AZURE_CLIENT_ID"@, AZURE_SIGNING_CLIENT_ID@),
        text_entry("AZURE_CLIENT_SECRET"@, AZURE_SIGNING_CLIENT_SECRET@),
        text_entry("ACCOUNT_NAME"@, AZURE_SIGNING_ACCOUNT_NAME@),
        text_entry("CERT_PROFILE_NAME"@, AZURE_SIGNING_CERT_PROFILE_NAME@),
        text_entry("ENDPOINT"@, AZURE_SIGNING_ENDPOINT@),
        text_entry("FILE_DIGEST"@, "SHA256"@),
        text_entry("TIMESTAMP_DIGEST"@, "SHA256"@),
        text_entry("TIMESTAMP_SERVER"@, "http://timestamp.acs.microsoft.com"@),
    ]
}

/// The environment of a bundling job on `platform`, entry by entry.
pub open spec fn bundle_envs_spec(platform: Platform) -> Seq<(Seq<char>, Seq<char>)> {
    match platform {
        Platform::Linux => common_bundle_entries(),
        Platform::Mac => common_bundle_entries() + mac_bundle_entries(),
        Platform::Windows => common_bundle_entries() + windows_bundle_entries(),
    }
}

/// The keys of a list of entries.
pub open spec fn entry_keys(entries: Seq<(Seq<char>, Seq<char>)>) -> Seq<Seq<char>> {
    entries.map_values(|e: (Seq<char>, Seq<char>)| e.0)
}

proof fn lemma_insert_fresh(entries: Seq<(Seq<char>, Seq<char>)>, key: Seq<char>, value: Seq<char>)
    requires
        forall|i: int| 0 <= i < entries.len() ==> #[trigger] entries[i].0 != key,
    ensures
        entries_insert(entries, key, value) == entries.push((key, value)),
{
}

/// Adds a string variable whose key is not yet in the environment.
fn add_fresh_text(env: Env, key: &str, value: &str) -> (r: Env)
    requires
        json_plain(value@),
        forall|i: int| 0 <= i < env_entries(env).len() ==> #[trigger] env_entries(env)[i].0 != key@,
    ensures
        env_entries(r) == env_entries(env).push(text_entry(key@, value@)),
{
    let r = env_add_text(env, key, value);
    proof {
        lemma_insert_fresh(env_entries(env), key@, json_quoted(value@));
    }
    r
}

/// Advances `entries`, the first `k` entries of a list whose keys are
/// unique, by the next entry of that list, whose key is then new.
proof fn lemma_next_key_fresh(
    list: Seq<(Seq<char>, Seq<char>)>,
    k: int,
    entries: Seq<(Seq<char>, Seq<char>)>,
)
    requires
        entry_keys(list).no_duplicates(),
        0 <= k < list.len(),
        entries == list.take(k),
    ensures
        forall|i: int| 0 <= i < entries.len() ==> #[trigger] entries[i].0 != list[k].0,
        entries.push(list[k]) == list.take(k + 1),
{
    assert forall|i: int| 0 <= i < entries.len() implies #[trigger] entries[i].0 != list[k].0 by {
        assert(entry_keys(list)[i] == list[i].0);
        assert(entry_keys(list)[k] == list[k].0);
    }
    assert(entries.push(list[k]) =~= list.take(k + 1));
}

/// The environment variables of a bundling job on `platform`: incremental
/// compilation off and the crash-reporting secrets everywhere, plus the
/// code-signing secrets that macOS and Windows bundling need.
pub fn bundle_envs(platform: Platform) -> (env: Env)
    ensures
        env_entries(env) == bundle_envs_spec(platform),
{
    let ghost spec = bundle_envs_spec(platform);
    proof {
        lemma_bundle_env_keys_unique(platform);
        reveal_strlit("${{ secrets.ZED_CLIENT_CHECKSUM_SEED }}");
        reveal_strlit("${{ secrets.ZED_SENTRY_MINIDUMP_ENDPOINT }}");
        reveal_strlit("${{ secrets.MACOS_CERTIFICATE }}");
        reveal_strlit("${{ secrets.MACOS_CERTIFICATE_PASSWORD }}");
        reveal_strlit("${{ secrets.APPLE_NOTARIZATION_KEY }}");
        reveal_strlit("${{ secrets.APPLE_NOTARIZATION_KEY_ID }}");
        reveal_strlit("${{ secrets.APPLE_NOTARIZATION_ISSUER_ID }}");
        reveal_strlit("${{ secrets.AZURE_SIGNING_TENANT_ID }}");
        reveal_strlit("${{ secrets.AZURE_SIGNING_CLIENT_ID }}");
        reveal_strlit("${{ secrets.AZURE_SIGNING_CLIENT_SECRET }}");
        reveal_strlit("${{ vars.AZURE_SIGNING_ACCOUNT_NAME }}");
        reveal_strlit("${{ vars.AZURE_SIGNING_CERT_PROFILE_NAME }}");
        reveal_strlit("${{ vars.AZURE_SIGNING_ENDPOINT }}");
        reveal_strlit("SHA256");
        reveal_strlit("http://timestamp.acs.microsoft.com");
        assert(spec.take(0) =~= Seq::<(Seq<char>, Seq<char>)>::empty());
    }
    let env = env_default();
    proof {
        lemma_next_key_fresh(spec, 0, env_entries(env));
        lemma_insert_fresh(Seq::empty(), "CARGO_INCREMENTAL"@, decimal_text(0));
    }
    let env = env_add_number(env, "CARGO_INCREMENTAL", 0);
    proof {
        lemma_next_key_fresh(spec, 1, env_entries(env));
    }
    let env = add_fresh_text(env, "ZED_CLIENT_CHECKSUM_SEED", ZED_CLIENT_CHECKSUM_SEED);
    proof {
        lemma_next_key_fresh(spec, 2, env_entries(env));
    }
    let env = add_fresh_text(env, "ZED_MINIDUMP_ENDPOINT", ZED_SENTRY_MINIDUMP_ENDPOINT);
    match platform {
        Platform::Linux => {
            assert(spec.take(3) =~= spec);
            env
        },
        Platform::Mac => {
            proof {
                lemma_next_key_fresh(spec, 3, env_entries(env));
            }
            let env = add_fresh_text(env, "MACOS_CERTIFICATE", MACOS_CERTIFICATE);
            proof {
                lemma_next_key_fresh(spec, 4, env_entries(env));
            }
            let env = add_fresh_text(env, "MACOS_CERTIFICATE_PASSWORD", MACOS_CERTIFICATE_PASSWORD);
            proof {
                lemma_next_key_fresh(spec, 5, env_entries(env));
            }
            let env = add_fresh_text(env, "APPLE_NOTARIZATION_KEY", APPLE_NOTARIZATION_KEY);
            proof {
                lemma_next_key_fresh(spec, 6, env_entries(env));
            }
            let env = add_fresh_text(env, "APPLE_NOTARIZATION_KEY_ID", APPLE_NOTARIZATION_KEY_ID);
            proof {
                lemma_next_key_fresh(spec, 7, env_entries(env));
            }
            let env = add_fresh_text(env, "APPLE_NOTARIZATION_ISSUER_ID", APPLE_NOTARIZATION_ISSUER_ID);
            assert(spec.take(8) =~= spec);
            env
        },
        Platform::Windows => {
            proof {
                lemma_next_key_fresh(spec, 3, env_entries(env));
            }
            let env = add_fresh_text(env, "AZURE_TENANT_ID", AZURE_SIGNING_TENANT_ID);
            proof {
                lemma_next_key_fresh(spec, 4, env_entries(env));
            }
            let env = add_fresh_text(env, "AZURE_CLIENT_ID", AZURE_SIGNING_CLIENT_ID);
            proof {
                lemma_next_key_fresh(spec, 5, env_entries(env));
            }
            let env = add_fresh_text(env, "AZURE_CLIENT_SECRET", AZURE_SIGNING_CLIENT_SECRET);
            proof {
                lemma_next_key_fresh(spec, 6, env_entries(env));
            }
            let env = add_fresh_text(env, "ACCOUNT_NAME", AZURE_SIGNING_ACCOUNT_NAME);
            proof {
                lemma_next_key_fresh(spec, 7, env_entries(env));
            }
            let env = add_fresh_text(env, "CERT_PROFILE_NAME", AZURE_SIGNING_CERT_PROFILE_NAME);
            proof {
                lemma_next_key_fresh(spec, 8, env_entries(env));
            }
            let env = add_fresh_text(env, "ENDPOINT", AZURE_SIGNING_ENDPOINT);
            proof {
                lemma_next_key_fresh(spec, 9, env_entries(env));
            }
            let env = add_fresh_text(env, "FILE_DIGEST", "SHA256");
            proof {
                lemma_next_key_fresh(spec, 10, env_entries(env));
            }
            let env = add_fresh_text(env, "TIMESTAMP_DIGEST", "SHA256");
            proof {
                lemma_next_key_fresh(spec, 11, env_entries(env));
            }
            let env = add_fresh_text(env, "TIMESTAMP_SERVER", "http://timestamp.acs.microsoft.com");
            assert(spec.take(12) =~= spec);
            env
        },
    }
}

/// Each variable of a bundling environment is set once: no key repeats, so
/// no entry overwrites another.
pub proof fn lemma_bundle_env_keys_unique(platform: Platform)
    ensures
        entry_keys(bundle_envs_spec(platform)).no_duplicates(),
{
    let keys = entry_keys(bundle_envs_spec(platform));
    match platform {
        Platform::Linux => {
            reveal_strlit("CARGO_INCREMENTAL");
            reveal_strlit("ZED_CLIENT_CHECKSUM_SEED");
            reveal_strlit("ZED_MINIDUMP_ENDPOINT");
            assert("CARGO_INCREMENTAL"@.len() != "ZED_CLIENT_CHECKSUM_SEED"@.len());
            assert("CARGO_INCREMENTAL"@.len() != "ZED_MINIDUMP_ENDPOINT"@.len());
            assert("ZED_CLIENT_CHECKSUM_SEED"@.len() != "ZED_MINIDUMP_ENDPOINT"@.len());
            assert(keys =~= seq!["CARGO_INCREMENTAL"@, "ZED_CLIENT_CHECKSUM_SEED"@, "ZED_MINIDUMP_ENDPOINT"@]);
        },
        Platform::Mac => {
            reveal_strlit("CARGO_INCREMENTAL");
            reveal_strlit("ZED_CLIENT_CHECKSUM_SEED");
            reveal_strlit("ZED_MINIDUMP_ENDPOINT");
            reveal_strlit("MACOS_CERTIFICATE");
            reveal_strlit("MACOS_CERTIFICATE_PASSWORD");
            reveal_strlit("APPLE_NOTARIZATION_KEY");
            reveal_strlit("APPLE_NOTARIZATION_KEY_ID");
            reveal_strlit("APPLE_NOTARIZATION_ISSUER_ID");
            assert("CARGO_INCREMENTAL"@.len() != "ZED_CLIENT_CHECKSUM_SEED"@.len());
            assert("CARGO_INCREMENTAL"@.len() != "ZED_MINIDUMP_ENDPOINT"@.len());
            assert("ZED_CLIENT_CHECKSUM_SEED"@.len() != "ZED_MINIDUMP_ENDPOINT"@.len());
            assert("CARGO_INCREMENTAL"@[0] != "MACOS_CERTIFICATE"@[0]);
            assert("ZED_CLIENT_CHECKSUM_SEED"@.len() != "MACOS_CERTIFICATE"@.len());
            assert("ZED_MINIDUMP_ENDPOINT"@.len() != "MACOS_CERTIFICATE"@.len());
            assert("CARGO_INCREMENTAL"@.len() != "MACOS_CERTIFICATE_PASSWORD"@.len());
            assert("ZED_CLIENT_CHECKSUM_SEED"@.len() != "MACOS_CERTIFICATE_PASSWORD"@.len());
            assert("ZED_MINIDUMP_ENDPOINT"@.len() != "MACOS_CERTIFICATE_PASSWORD"@.len());
            assert("MACOS_CERTIFICATE"@.len() != "MACOS_CERTIFICATE_PASSWORD"@.len());
            assert("CARGO_INCREMENTAL"@.len() != "APPLE_NOTARIZATION_KEY"@.len());
            assert("ZED_CLIENT_CHECKSUM_SEED"@.len() != "APPLE_NOTARIZATION_KEY"@.len());
            assert("ZED_MINIDUMP_ENDPOINT"@.len() != "APPLE_NOTARIZATION_KEY"@.len());
            assert("MACOS_CERTIFICATE"@.len() != "APPLE_NOTARIZATION_KEY"@.len());
            assert("MACOS_CERTIFICATE_PASSWORD"@.len() != "APPLE_NOTARIZATION_KEY"@.len());
            assert("CARGO_INCREMENTAL"@.len() != "APPLE_NOTARIZATION_KEY_ID"@.len());
            assert("ZED_CLIENT_CHECKSUM_SEED"@.len() != "APPLE_NOTARIZATION_KEY_ID"@.len());
            assert("ZED_MINIDUMP_ENDPOINT"@.len() != "APPLE_NOTARIZATION_KEY_ID"@.len());
            assert("MACOS_CERTIFICATE"@.len() != "APPLE_NOTARIZATION_KEY_ID"@.len());
            assert("MACOS_CERTIFICATE_PASSWORD"@.len() != "APPLE_NOTARIZATION_KEY_ID"@.len());
            assert("APPLE_NOTARIZATION_KEY"@.len() != "APPLE_NOTARIZATION_KEY_ID"@.len());
            assert("CARGO_INCREMENTAL"@.len() != "APPLE_NOTARIZATION_ISSUER_ID"@.len());
            assert("ZED_CLIENT_CHECKSUM_SEED"@.len() != "APPLE_NOTARIZATION_ISSUER_ID"@.len());
            assert("ZED_MINIDUMP_ENDPOINT"@.len() != "APPLE_NOTARIZATION_ISSUER_ID"@.len());
            assert("MACOS_CERTIFICATE"@.len() != "APPLE_NOTARIZATION_ISSUER_ID"@.len());
            assert("MACOS_CERTIFICATE_PASSWORD"@.len() != "APPLE_NOTARIZATION_ISSUER_ID"@.len());
            assert("APPLE_NOTARIZATION_KEY"@.len() != "APPLE_NOTARIZATION_ISSUER_ID"@.len());
            assert("APPLE_NOTARIZATION_KEY_ID"@.len() != "APPLE_NOTARIZATION_ISSUER_ID"@.len());
            assert(keys =~= seq!["CARGO_INCREMENTAL"@, "ZED_CLIENT_CHECKSUM_SEED"@, "ZED_MINIDUMP_ENDPOINT"@, "MACOS_CERTIFICATE"@, "MACOS_CERTIFICATE_PASSWORD"@, "APPLE_NOTARIZATION_KEY"@, "APPLE_NOTARIZATION_KEY_ID"@, "APPLE_NOTARIZATION_ISSUER_ID"@]);
        },
        Platform::Windows => {
            reveal_strlit("CARGO_INCREMENTAL");
            reveal_strlit("ZED_CLIENT_CHECKSUM_SEED");
            reveal_strlit("ZED_MINIDUMP_ENDPOINT");
            reveal_strlit("AZURE_TENANT_ID");
            reveal_strlit("AZURE_CLIENT_ID");
            reveal_strlit("AZURE_CLIENT_SECRET");
            reveal_strlit("ACCOUNT_NAME");
            reveal_strlit("CERT_PROFILE_NAME");
            reveal_strlit("ENDPOINT");
            reveal_strlit("FILE_DIGEST");
            reveal_strlit("TIMESTAMP_DIGEST");
            reveal_strlit("TIMESTAMP_SERVER");
            assert("CARGO_INCREMENTAL"@.len() != "ZED_CLIENT_CHECKSUM_SEED"@.len());
            assert("CARGO_INCREMENTAL"@.len() != "ZED_MINIDUMP_ENDPOINT"@.len());
            assert("ZED_CLIENT_CHECKSUM_SEED"@.len() != "ZED_MINIDUMP_ENDPOINT"@.len());
            assert("CARGO_INCREMENTAL"@.len() != "AZURE_TENANT_ID"@.len());
            assert("ZED_CLIENT_CHECKSUM_SEED"@.len() != "AZURE_TENANT_ID"@.len());
            assert("ZED_MINIDUMP_ENDPOINT"@.len() != "AZURE_TENANT_ID"@.len());
            assert("CARGO_INCREMENTAL"@.len() != "AZURE_CLIENT_ID"@.len());
            assert("ZED_CLIENT_CHECKSUM_SEED"@.len() != "AZURE_CLIENT_ID"@.len());
            assert("ZED_MINIDUMP_ENDPOINT"@.len() != "AZURE_CLIENT_ID"@.len());
            assert("AZURE_TENANT_ID"@[6] != "AZURE_CLIENT_ID"@[6]);
            assert("CARGO_INCREMENTAL"@.len() != "AZURE_CLIENT_SECRET"@.len());
            assert("ZED_CLIENT_CHECKSUM_SEED"@.len() != "AZURE_CLIENT_SECRET"@.len());
            assert("ZED_MINIDUMP_ENDPOINT"@.len() != "AZURE_CLIENT_SECRET"@.len());
            assert("AZURE_TENANT_ID"@.len() != "AZURE_CLIENT_SECRET"@.len());
            assert("AZURE_CLIENT_ID"@.len() != "AZURE_CLIENT_SECRET"@.len());
            assert("CARGO_INCREMENTAL"@.len() != "ACCOUNT_NAME"@.len());
            assert("ZED_CLIENT_CHECKSUM_SEED"@.len() != "ACCOUNT_NAME"@.len());
            assert("ZED_MINIDUMP_ENDPOINT"@.len() != "ACCOUNT_NAME"@.len());
            assert("AZURE_TENANT_ID"@.len() != "ACCOUNT_NAME"@.len());
            assert("AZURE_CLIENT_ID"@.len() != "ACCOUNT_NAME"@.len());
            assert("AZURE_CLIENT_SECRET"@.len() != "ACCOUNT_NAME"@.len());
            assert("CARGO_INCREMENTAL"@[1] != "CERT_PROFILE_NAME"@[1]);
            assert("ZED_CLIENT_CHECKSUM_SEED"@.len() != "CERT_PROFILE_NAME"@.len());
            assert("ZED_MINIDUMP_ENDPOINT"@.len() != "CERT_PROFILE_NAME"@.len());
            assert("AZURE_TENANT_ID"@.len() != "CERT_PROFILE_NAME"@.len());
            assert("AZURE_CLIENT_ID"@.len() != "CERT_PROFILE_NAME"@.len());
            assert("AZURE_CLIENT_SECRET"@.len() != "CERT_PROFILE_NAME"@.len());
            assert("ACCOUNT_NAME"@.len() != "CERT_PROFILE_NAME"@.len());
            assert("CARGO_INCREMENTAL"@.len() != "ENDPOINT"@.len());
            assert("ZED_CLIENT_CHECKSUM_SEED"@.len() != "ENDPOINT"@.len());
            assert("ZED_MINIDUMP_ENDPOINT"@.len() != "ENDPOINT"@.len());
            assert("AZURE_TENANT_ID"@.len() != "ENDPOINT"@.len());
            assert("AZURE_CLIENT_ID"@.len() != "ENDPOINT"@.len());
            assert("AZURE_CLIENT_SECRET"@.len() != "ENDPOINT"@.len());
            assert("ACCOUNT_NAME"@.len() != "ENDPOINT"@.len());
            assert("CERT_PROFILE_NAME"@.len() != "ENDPOINT"@.len());
            assert("CARGO_INCREMENTAL"@.len() != "FILE_DIGEST"@.len());
            assert("ZED_CLIENT_CHECKSUM_SEED"@.len() != "FILE_DIGEST"@.len());
            assert("ZED_MINIDUMP_ENDPOINT"@.len() != "FILE_DIGEST"@.len());
            assert("AZURE_TENANT_ID"@.len() != "FILE_DIGEST"@.len());
            assert("AZURE_CLIENT_ID"@.len() != "FILE_DIGEST"@.len());
            assert("AZURE_CLIENT_SECRET"@.len() != "FILE_DIGEST"@.len());
            assert("ACCOUNT_NAME"@.len() != "FILE_DIGEST"@.len());
            assert("CERT_PROFILE_NAME"@.len() != "FILE_DIGEST"@.len());
            assert("ENDPOINT"@.len() != "FILE_DIGEST"@.len());
            assert("CARGO_INCREMENTAL"@.len() != "TIMESTAMP_DIGEST"@.len());
            assert("ZED_CLIENT_CHECKSUM_SEED"@.len() != "TIMESTAMP_DIGEST"@.len());
            assert("ZED_MINIDUMP_ENDPOINT"@.len() != "TIMESTAMP_DIGEST"@.len());
            assert("AZURE_TENANT_ID"@.len() != "TIMESTAMP_DIGEST"@.len());
            assert("AZURE_CLIENT_ID"@.len() != "TIMESTAMP_DIGEST"@.len());
            assert("AZURE_CLIENT_SECRET"@.len() != "TIMESTAMP_DIGEST"@.len());
            assert("ACCOUNT_NAME"@.len() != "TIMESTAMP_DIGEST"@.len());
            assert("CERT_PROFILE_NAME"@.len() != "TIMESTAMP_DIGEST"@.len());
            assert("ENDPOINT"@.len() != "TIMESTAMP_DIGEST"@.len());
            assert("FILE_DIGEST"@.len() != "TIMESTAMP_DIGEST"@.len());
            assert("CARGO_INCREMENTAL"@.len() != "TIMESTAMP_SERVER"@.len());
            assert("ZED_CLIENT_CHECKSUM_SEED"@.len() != "TIMESTAMP_SERVER"@.len());
            assert("ZED_MINIDUMP_ENDPOINT"@.len() != "TIMESTAMP_SERVER"@.len());
            assert("AZURE_TENANT_ID"@.len() != "TIMESTAMP_SERVER"@.len());
            assert("AZURE_CLIENT_ID"@.len() != "TIMESTAMP_SERVER"@.len());
            assert("AZURE_CLIENT_SECRET"@.len() != "TIMESTAMP_SERVER"@.len());
            assert("ACCOUNT_NAME"@.len() != "TIMESTAMP_SERVER"@.len());
            assert("CERT_PROFILE_NAME"@.len() != "TIMESTAMP_SERVER"@.len());
            assert("ENDPOINT"@.len() != "TIMESTAMP_SERVER"@.len());
            assert("FILE_DIGEST"@.len() != "TIMESTAMP_SERVER"@.len());
            assert("TIMESTAMP_DIGEST"@[10] != "TIMESTAMP_SERVER"@[10]);
            assert(keys =~= seq!["CARGO_INCREMENTAL"@, "ZED_CLIENT_CHECKSUM_SEED"@, "ZED_MINIDUMP_ENDPOINT"@, "AZURE_TENANT_ID"@, "AZURE_CLIENT_ID"@, "AZURE_CLIENT_SECRET"@, "ACCOUNT_NAME"@, "CERT_PROFILE_NAME"@, "ENDPOINT"@, "FILE_DIGEST"@, "TIMESTAMP_DIGEST"@, "TIMESTAMP_SERVER"@]);
        },
    }
}

/// Every bundling environment starts with the variables of the Linux one,
/// in the same order.
pub proof fn lemma_bundle_envs_extend_common(platform: Platform)
    ensures
        bundle_envs_spec(platform).take(3) == common_bundle_entries(),
        bundle_envs_spec(Platform::Linux) == common_bundle_entries(),
{
    assert(bundle_envs_spec(platform).take(3) =~= common_bundle_entries());
}

/// The secrets that sign and notarize the macOS application.
pub open spec fn is_mac_signing_secret(name: Seq<char>) -> bool {
    ||| name == "MACOS_CERTIFICATE"@
    ||| name == "MACOS_CERTIFICATE_PASSWORD"@
    ||| name == "APPLE_NOTARIZATION_KEY"@
    ||| name == "APPLE_NOTARIZATION_KEY_ID"@
    ||| name == "APPLE_NOTARIZATION_ISSUER_ID"@
}

/// The secrets and variables that sign the Windows application on Azure.
pub open spec fn is_azure_signing_name(name: Seq<char>) -> bool {
    ||| name == "AZURE_SIGNING_TENANT_ID"@
    ||| name == "AZURE_SIGNING_CLIENT_ID"@
    ||| name == "AZURE_SIGNING_CLIENT_SECRET"@
    ||| name == "AZURE_SIGNING_ACCOUNT_NAME"@
    ||| name == "AZURE_SIGNING_CERT_PROFILE_NAME"@
    ||| name == "AZURE_SIGNING_ENDPOINT"@
}

/// The environment value `value` reads the repository secret `name`.
pub open spec fn reads_secret(value: Seq<char>, name: Seq<char>) -> bool {
    value == json_quoted(secret_expr(name))
}

/// The environment value `value` reads the repository variable `name`.
pub open spec fn reads_var(value: Seq<char>, name: Seq<char>) -> bool {
    value == json_quoted(var_expr(name))
}

/// A string written into a workflow as it is: it holds no `$`, so it is no
/// expression that GitHub Actions would evaluate.
pub open spec fn is_public_literal(text: Seq<char>) -> bool {
    forall|k: int| 0 <= k < text.len() ==> #[trigger] text[k] != '$'
}

proof fn lemma_reference_chars(name: Seq<char>)
    ensures
        json_quoted(secret_expr(name)).len() == name.len() + 17,
        json_quoted(secret_expr(name))[5] == 's',
        name.len() >= 2 ==> json_quoted(secret_expr(name))[13] == name[0]
            && json_quoted(secret_expr(name))[14] == name[1],
        json_quoted(var_expr(name)).len() == name.len() + 14,
        json_quoted(var_expr(name))[5] == 'v',
{
    reveal_strlit("${{ secrets.");
    reveal_strlit("${{ vars.");
    reveal_strlit(" }}");
}

/// Every value of a bundling environment is a number, a reference to a
/// repository secret or variable, or a public literal: no secret is written
/// into a workflow, only the expression that reads it.
pub proof fn lemma_bundle_env_values_are_references(platform: Platform)
    ensures
        forall|i: int| 0 <= i < bundle_envs_spec(platform).len() ==> {
            let value = #[trigger] bundle_envs_spec(platform)[i].1;
            ||| exists|n: nat| value == decimal_text(n)
            ||| exists|name: Seq<char>| #[trigger] reads_secret(value, name)
            ||| exists|name: Seq<char>| #[trigger] reads_var(value, name)
            ||| exists|text: Seq<char>| value == json_quoted(text) && #[trigger] is_public_literal(text)
        },
{
    lemma_secret_and_var_references();
    reveal_strlit("SHA256");
    reveal_strlit("http://timestamp.acs.microsoft.com");
    let entries = bundle_envs_spec(platform);
    assert(entries[0].1 == decimal_text(0));
    assert(reads_secret(entries[1].1, "ZED_CLIENT_CHECKSUM_SEED"@));
    assert(reads_secret(entries[2].1, "ZED_SENTRY_MINIDUMP_ENDPOINT"@));
    match platform {
        Platform::Linux => {},
        Platform::Mac => {
            assert(reads_secret(entries[3].1, "MACOS_CERTIFICATE"@));
            assert(reads_secret(entries[4].1, "MACOS_CERTIFICATE_PASSWORD"@));
            assert(reads_secret(entries[5].1, "APPLE_NOTARIZATION_KEY"@));
            assert(reads_secret(entries[6].1, "APPLE_NOTARIZATION_KEY_ID"@));
            assert(reads_secret(entries[7].1, "APPLE_NOTARIZATION_ISSUER_ID"@));
        },
        Platform::Windows => {
            assert(reads_secret(entries[3].1, "AZURE_SIGNING_TENANT_ID"@));
            assert(reads_secret(entries[4].1, "AZURE_SIGNING_CLIENT_ID"@));
            assert(reads_secret(entries[5].1, "AZURE_SIGNING_CLIENT_SECRET"@));
            assert(reads_var(entries[6].1, "AZURE_SIGNING_ACCOUNT_NAME"@));
            assert(reads_var(entries[7].1, "AZURE_SIGNING_CERT_PROFILE_NAME"@));
            assert(reads_var(entries[8].1, "AZURE_SIGNING_ENDPOINT"@));
            assert(is_public_literal("SHA256"@));
            assert(is_public_literal("http://timestamp.acs.microsoft.com"@));
            assert(entries[9].1 == json_quoted("SHA256"@));
            assert(entries[10].1 == json_quoted("SHA256"@));
            assert(entries[11].1 == json_quoted("http://timestamp.acs.microsoft.com"@));
        },
    }
}

/// The signing secrets stay on their platform: only the macOS bundling
/// environment reads a macOS signing or notarization secret, and only the
/// Windows one reads an Azure signing secret or variable.
pub proof fn lemma_signing_secrets_stay_on_their_platform(platform: Platform, i: int, name: Seq<char>)
    requires
        0 <= i < bundle_envs_spec(platform).len(),
    ensures
        is_mac_signing_secret(name) && reads_secret(bundle_envs_spec(platform)[i].1, name)
            ==> platform == Platform::Mac,
        is_azure_signing_name(name) && (reads_secret(bundle_envs_spec(platform)[i].1, name)
            || reads_var(bundle_envs_spec(platform)[i].1, name)) ==> platform == Platform::Windows,
{
    lemma_secret_and_var_references();
    reveal_strlit("MACOS_CERTIFICATE");
    reveal_strlit("MACOS_CERTIFICATE_PASSWORD");
    reveal_strlit("APPLE_NOTARIZATION_KEY");
    reveal_strlit("APPLE_NOTARIZATION_KEY_ID");
    reveal_strlit("APPLE_NOTARIZATION_ISSUER_ID");
    reveal_strlit("AZURE_SIGNING_TENANT_ID");
    reveal_strlit("AZURE_SIGNING_CLIENT_ID");
    reveal_strlit("AZURE_SIGNING_CLIENT_SECRET");
    reveal_strlit("AZURE_SIGNING_ACCOUNT_NAME");
    reveal_strlit("AZURE_SIGNING_CERT_PROFILE_NAME");
    reveal_strlit("AZURE_SIGNING_ENDPOINT");
    reveal_strlit("ZED_CLIENT_CHECKSUM_SEED");
    reveal_strlit("ZED_SENTRY_MINIDUMP_ENDPOINT");
    reveal_strlit("SHA256");
    reveal_strlit("http://timestamp.acs.microsoft.com");
    let entries = bundle_envs_spec(platform);
    let value = entries[i].1;
    lemma_reference_chars(name);
    lemma_reference_chars("ZED_CLIENT_CHECKSUM_SEED"@);
    lemma_reference_chars("ZED_SENTRY_MINIDUMP_ENDPOINT"@);
    lemma_reference_chars("MACOS_CERTIFICATE"@);
    lemma_reference_chars("MACOS_CERTIFICATE_PASSWORD"@);
    lemma_reference_chars("APPLE_NOTARIZATION_KEY"@);
    lemma_reference_chars("APPLE_NOTARIZATION_KEY_ID"@);
    lemma_reference_chars("APPLE_NOTARIZATION_ISSUER_ID"@);
    lemma_reference_chars("AZURE_SIGNING_TENANT_ID"@);
    lemma_reference_chars("AZURE_SIGNING_CLIENT_ID"@);
    lemma_reference_chars("AZURE_SIGNING_CLIENT_SECRET"@);
    lemma_reference_chars("AZURE_SIGNING_ACCOUNT_NAME"@);
    lemma_reference_chars("AZURE_SIGNING_CERT_PROFILE_NAME"@);
    lemma_reference_chars("AZURE_SIGNING_ENDPOINT"@);
    assert(decimal_text(0) == seq!['0']);
    assert(json_quoted("SHA256"@).len() == 8);
    assert(json_quoted("http://timestamp.acs.microsoft.com"@)[13] == 't');
    if is_mac_signing_secret(name) && reads_secret(value, name) && platform != Platform::Mac {
        assert(value[13] == name[0] && value[14] == name[1]);
        assert(name[0] == 'M' || name[1] == 'P');
        if i == 1 {
            assert(value[13] == 'Z');
        } else if i == 2 {
            assert(value[13] == 'Z');
        } else if 3 <= i <= 5 {
            assert(value[14] == 'Z');
        } else if 6 <= i <= 8 {
            assert(value[5] == 'v');
        }
    }
    if is_azure_signing_name(name) && (reads_secret(value, name) || reads_var(value, name))
        && platform != Platform::Windows {
        assert(name[1] == 'Z');
        if reads_var(value, name) {
            if i > 0 {
                assert(value[5] == 's');
            }
        } else {
            assert(value[14] == name[1]);
            if i == 1 || i == 2 {
                assert(value[14] == 'E');
            } else if i == 3 || i == 4 {
                assert(value[14] == 'A');
            } else if i > 4 {
                assert(value[14] == 'P');
            }
        }
    }
}

/// Reading a secret names it: two values that read secrets are equal only
/// when they read the same secret.
pub proof fn lemma_secret_reference_names_the_secret(a: Seq<char>, b: Seq<char>)
    ensures
        json_quoted(secret_expr(a)) == json_quoted(secret_expr(b)) ==> a == b,
{
    reveal_strlit("${{ secrets.");
    reveal_strlit(" }}");
    let x = json_quoted(secret_expr(a));
    let y = json_quoted(secret_expr(b));
    lemma_reference_chars(a);
    lemma_reference_chars(b);
    if x == y {
        assert(a.len() == b.len());
        assert forall|k: int| 0 <= k < a.len() implies x[13 + k] == a[k] by {}
        assert forall|k: int| 0 <= k < b.len() implies y[13 + k] == b[k] by {}
        assert(a =~= x.subrange(13, 13 + a.len() as int));
        assert(b =~= y.subrange(13, 13 + b.len() as int));
    }
}

/// In the macOS bundling environment every signing and notarization
/// variable reads the repository secret of its own name, each of them is
/// set, and no two of them read the same secret.
pub proof fn lemma_mac_signing_keys_read_their_own_secret(i: int, j: int, name: Seq<char>)
    ensures
        0 <= i < bundle_envs_spec(Platform::Mac).len() && is_mac_signing_secret(
            bundle_envs_spec(Platform::Mac)[i].0,
        ) ==> reads_secret(bundle_envs_spec(Platform::Mac)[i].1, bundle_envs_spec(Platform::Mac)[i].0),
        is_mac_signing_secret(name) ==> exists|k: int|
            0 <= k < bundle_envs_spec(Platform::Mac).len()
                && #[trigger] bundle_envs_spec(Platform::Mac)[k].0 == name,
        0 <= i < bundle_envs_spec(Platform::Mac).len() && 0 <= j < bundle_envs_spec(
            Platform::Mac,
        ).len() && is_mac_signing_secret(bundle_envs_spec(Platform::Mac)[i].0)
            && is_mac_signing_secret(bundle_envs_spec(Platform::Mac)[j].0) && reads_secret(
            bundle_envs_spec(Platform::Mac)[i].1,
            name,
        ) && reads_secret(bundle_envs_spec(Platform::Mac)[j].1, name) ==> i == j,
{
    let entries = bundle_envs_spec(Platform::Mac);
    lemma_secret_and_var_references();
    lemma_bundle_env_keys_unique(Platform::Mac);
    reveal_strlit("CARGO_INCREMENTAL");
    reveal_strlit("ZED_CLIENT_CHECKSUM_SEED");
    reveal_strlit("ZED_MINIDUMP_ENDPOINT");
    reveal_strlit("MACOS_CERTIFICATE");
    reveal_strlit("MACOS_CERTIFICATE_PASSWORD");
    reveal_strlit("APPLE_NOTARIZATION_KEY");
    reveal_strlit("APPLE_NOTARIZATION_KEY_ID");
    reveal_strlit("APPLE_NOTARIZATION_ISSUER_ID");
    assert("CARGO_INCREMENTAL"@[0] == 'C');
    assert("ZED_CLIENT_CHECKSUM_SEED"@[0] == 'Z');
    assert("ZED_MINIDUMP_ENDPOINT"@[0] == 'Z');
    assert("MACOS_CERTIFICATE"@.len() != "MACOS_CERTIFICATE_PASSWORD"@.len());
    if is_mac_signing_secret(name) {
        if name == "MACOS_CERTIFICATE"@ {
            assert(entries[3].0 == name);
        } else if name == "MACOS_CERTIFICATE_PASSWORD"@ {
            assert(entries[4].0 == name);
        } else if name == "APPLE_NOTARIZATION_KEY"@ {
            assert(entries[5].0 == name);
        } else if name == "APPLE_NOTARIZATION_KEY_ID"@ {
            assert(entries[6].0 == name);
        } else {
            assert(entries[7].0 == name);
        }
    }
    if 0 <= i < entries.len() && is_mac_signing_secret(entries[i].0) {
        assert(3 <= i);
        assert(reads_secret(entries[i].1, entries[i].0));
    }
    if 0 <= i < entries.len() && 0 <= j < entries.len() && is_mac_signing_secret(entries[i].0)
        && is_mac_signing_secret(entries[j].0) && reads_secret(entries[i].1, name) && reads_secret(
        entries[j].1,
        name,
    ) {
        assert(3 <= i && 3 <= j);
        assert(reads_secret(entries[i].1, entries[i].0));
        assert(reads_secret(entries[j].1, entries[j].0));
        lemma_secret_reference_names_the_secret(name, entries[i].0);
        lemma_secret_reference_names_the_secret(name, entries[j].0);
        assert(entry_keys(entries)[i] == entries[i].0);
        assert(entry_keys(entries)[j] == entries[j].0);
    }
}

/// Reading a variable names it: two values that read variables are equal
/// only when they read the same variable.
pub proof fn lemma_var_reference_names_the_var(a: Seq<char>, b: Seq<char>)
    ensures
        json_quoted(var_expr(a)) == json_quoted(var_expr(b)) ==> a == b,
{
    reveal_strlit("${{ vars.");
    reveal_strlit(" }}");
    let x = json_quoted(var_expr(a));
    let y = json_quoted(var_expr(b));
    lemma_reference_chars(a);
    lemma_reference_chars(b);
    if x == y {
        assert(a.len() == b.len());
        assert forall|k: int| 0 <= k < a.len() implies x[10 + k] == a[k] by {}
        assert forall|k: int| 0 <= k < b.len() implies y[10 + k] == b[k] by {}
        assert(a =~= x.subrange(10, 10 + a.len() as int));
        assert(b =~= y.subrange(10, 10 + b.len() as int));
    }
}

/// In the Windows bundling environment each Azure signing secret or
/// variable is read under the key that it names: the key ends with what
/// follows `AZURE_SIGNING_` in the name (`AZURE_CLIENT_ID` reads
/// `AZURE_SIGNING_CLIENT_ID`, `ENDPOINT` reads `AZURE_SIGNING_ENDPOINT`).
pub proof fn lemma_azure_values_match_their_keys(i: int, name: Seq<char>)
    requires
        0 <= i < bundle_envs_spec(Platform::Windows).len(),
        is_azure_signing_name(name),
        reads_secret(bundle_envs_spec(Platform::Windows)[i].1, name) || reads_var(
            bundle_envs_spec(Platform::Windows)[i].1,
            name,
        ),
    ensures
        name.skip(14).is_suffix_of(bundle_envs_spec(Platform::Windows)[i].0),
{
    let entries = bundle_envs_spec(Platform::Windows);
    let value = entries[i].1;
    lemma_secret_and_var_references();
    reveal_strlit("AZURE_SIGNING_TENANT_ID");
    reveal_strlit("AZURE_SIGNING_CLIENT_ID");
    reveal_strlit("AZURE_SIGNING_CLIENT_SECRET");
    reveal_strlit("AZURE_SIGNING_ACCOUNT_NAME");
    reveal_strlit("AZURE_SIGNING_CERT_PROFILE_NAME");
    reveal_strlit("AZURE_SIGNING_ENDPOINT");
    reveal_strlit("ZED_CLIENT_CHECKSUM_SEED");
    reveal_strlit("ZED_SENTRY_MINIDUMP_ENDPOINT");
    reveal_strlit("AZURE_TENANT_ID");
    reveal_strlit("AZURE_CLIENT_ID");
    reveal_strlit("AZURE_CLIENT_SECRET");
    reveal_strlit("ACCOUNT_NAME");
    reveal_strlit("CERT_PROFILE_NAME");
    reveal_strlit("ENDPOINT");
    reveal_strlit("SHA256");
    reveal_strlit("http://timestamp.acs.microsoft.com");
    lemma_reference_chars(name);
    assert(decimal_text(0) == seq!['0']);
    assert(json_quoted("SHA256"@).len() == 8);
    assert(json_quoted("http://timestamp.acs.microsoft.com"@)[5] == ':');
    if 1 <= i <= 5 {
        let stored = if i == 1 {
            "ZED_CLIENT_CHECKSUM_SEED"@
        } else if i == 2 {
            "ZED_SENTRY_MINIDUMP_ENDPOINT"@
        } else if i == 3 {
            "AZURE_SIGNING_TENANT_ID"@
        } else if i == 4 {
            "AZURE_SIGNING_CLIENT_ID"@
        } else {
            "AZURE_SIGNING_CLIENT_SECRET"@
        };
        assert(reads_secret(value, stored));
        lemma_reference_chars(stored);
        lemma_secret_reference_names_the_secret(name, stored);
        assert(name == stored);
    } else if 6 <= i <= 8 {
        let stored = if i == 6 {
            "AZURE_SIGNING_ACCOUNT_NAME"@
        } else if i == 7 {
            "AZURE_SIGNING_CERT_PROFILE_NAME"@
        } else {
            "AZURE_SIGNING_ENDPOINT"@
        };
        assert(reads_var(value, stored));
        lemma_reference_chars(stored);
        lemma_var_reference_names_the_var(name, stored);
        assert(name == stored);
    }
    assert(name.skip(14) =~= entries[i].0.subrange(
        entries[i].0.len() - (name.len() - 14),
        entries[i].0.len() as int,
    ));
}

/// A pattern of changed files, the name of the output that tells whether a
/// change matched it, and the id of the job step that sets that output once
/// it is known.
pub struct PathCondition {
    pub name: &'static str,
    pub pattern: &'static str,
    pub invert: bool,
    pub set_by_step: Option<String>,
}

/// The condition under which a job guarded by the output `name` of the job
/// `step` runs.
pub open spec fn guard_condition_spec(step: Seq<char>, name: Seq<char>) -> Seq<char> {
    "needs."@ + step + ".outputs."@ + name + " == 'true'"@
}

impl PathCondition {
    /// A condition that holds when a changed file matches `pattern`.
    pub fn new(name: &'static str, pattern: &'static str) -> (r: Self)
        ensures
            r.name == name,
            r.pattern == pattern,
            !r.invert,
            r.set_by_step is None,
    {
        PathCondition { name, pattern, invert: false, set_by_step: None }
    }

    /// A condition that holds when no changed file matches `pattern`.
    pub fn inverted(name: &'static str, pattern: &'static str) -> (r: Self)
        ensures
            r.name == name,
            r.pattern == pattern,
            r.invert,
            r.set_by_step is None,
    {
        PathCondition { name, pattern, invert: true, set_by_step: None }
    }

    /// Makes `job` wait for the step that computes this condition and run
    /// only when the condition's output is `'true'`. The job keeps its id and
    /// everything else it holds; the result depends on this condition only
    /// through its name and its step.
    pub fn guard(&self, job: NamedJob) -> (r: NamedJob)
        requires
            self.set_by_step is Some,
        ensures
            r.name == job.name,
            job_view(r.job) == (
                needs_after_add(job_needs(job.job), self.set_by_step->Some_0@),
                Some(guard_condition_spec(self.set_by_step->Some_0@, self.name@)),
                job_timeout_minutes(job.job),
                job_rest(job.job),
            ),
    {
        let set_by_step = match &self.set_by_step {
            Some(step) => step,
            None => {
                proof {
                    assert(false);
                }
                return job;
            },
        };
        let cond = String::from_str("needs.").concat(set_by_step.as_str()).concat(".outputs.").concat(
            self.name,
        ).concat(" == 'true'");
        let guarded = job_add_needs(job.job, set_by_step.as_str());
        NamedJob { name: job.name, job: job_set_condition(guarded, cond.as_str()) }
    }
}

/// What a manually triggered workflow declares about one of its inputs.
pub struct DispatchInput {
    pub description: String,
    pub required: bool,
    pub input_type: String,
    pub default: Option<String>,
}

/// An input of a manually triggered workflow.
pub struct WorkflowInput {
    pub input_type: &'static str,
    pub name: &'static str,
    pub default: Option<String>,
    pub description: Option<String>,
}

/// The expression under which a workflow reads its input `name`.
pub open spec fn input_expr_spec(name: Seq<char>) -> Seq<char> {
    "inputs."@ + name
}

/// The text that stands for an input inside workflow files.
pub open spec fn input_reference_spec(name: Seq<char>) -> Seq<char> {
    "${{ "@ + input_expr_spec(name) + " }}"@
}

fn clone_option_string(s: &Option<String>) -> (r: Option<String>)
    ensures
        r == *s,
{
    match s {
        Some(v) => Some(v.clone()),
        None => None,
    }
}

impl WorkflowInput {
    /// A string input, optional when it has a default.
    pub fn string(name: &'static str, default: Option<String>) -> (r: Self)
        ensures
            r.input_type@ == "string"@,
            r.name == name,
            r.default == default,
            r.description is None,
    {
        WorkflowInput { input_type: "string", name, default, description: None }
    }

    /// The declaration of this input: described by its description, or by
    /// its name when it has none, and required exactly when it has no
    /// default.
    pub fn input(&self) -> (r: DispatchInput)
        ensures
            r.description@ == match self.description {
                Some(d) => d@,
                None => self.name@,
            },
            r.required == (self.default is None),
            r.input_type@ == self.input_type@,
            r.default == self.default,
    {
        let description = match &self.description {
            Some(d) => d.clone(),
            None => self.name.to_owned(),
        };
        DispatchInput {
            description,
            required: self.default.is_none(),
            input_type: self.input_type.to_owned(),
            default: clone_option_string(&self.default),
        }
    }

    /// The expression that reads this input: `inputs.<name>`.
    pub fn expr(&self) -> (r: String)
        ensures
            r@ == input_expr_spec(self.name@),
    {
        String::from_str("inputs.").concat(self.name)
    }

    /// The reference to this input as it is written into workflow files:
    /// `${{ inputs.<name> }}`.
    pub fn to_string(&self) -> (r: String)
        ensures
            r@ == input_reference_spec(self.name@),
    {
        let expr = self.expr();
        String::from_str("${{ ").concat(expr.as_str()).concat(" }}")
    }
}

} // verus!
