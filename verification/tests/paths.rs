use nexigon::agent::Config as AgentConfig;
use nexigon::api::AuditEntity;
use nexigon::api::DeviceEventSeverity;
use nexigon::api::Jwt;
use nexigon::cli::AddTagArg;
use nexigon::cli::AddTagError;
use nexigon::cli::AssetRef;
use nexigon::cli::ForwardPorts;
use nexigon::cli::ForwardPortsError;
use nexigon::cli::PackageRef;
use nexigon::cli::ReferenceError;
use nexigon::cli::RepositoryRef;
use nexigon::cli::VersionRef;
use nexigon::cli::asset_ref;
use nexigon::cli::config::Config as CliConfig;
use nexigon::cli::forward_endpoint;
use nexigon::cli::package_ref;
use nexigon::cli::parse_asset_path as parse_exact_asset_path;
use nexigon::cli::parse_version_path;
use nexigon::cli::repository_ref;
use nexigon::cli::version_ref;
use nexigon::client::ClientToken;
use nexigon::common::ParsePathError;
use nexigon::common::parse_asset_path;
use nexigon::ids::Id;
use nexigon::ids::RawId;
use nexigon::ids::ids::DeploymentToken;
use nexigon::ids::ids::DeviceId;
use nexigon::ids::ids::ProjectId;
use nexigon::ids::ids::UserToken;
use nexigon::text::parse_hex_u8;
use nexigon::text::parse_u16;
use nexigon::text::split_first;
use std::path::PathBuf;

#[test]
fn asset_path_keeps_slashes_in_the_filename() {
    let path = parse_asset_path("repo/pkg/v1/dir/file.bin").unwrap();
    assert_eq!(path.repository(), "repo");
    assert_eq!(path.package(), "pkg");
    assert_eq!(path.tag(), "v1");
    assert_eq!(path.filename(), "dir/file.bin");
    let path = parse_asset_path("repo/pkg/v1").unwrap();
    assert_eq!(path.filename(), "");
    let path = parse_asset_path("//").unwrap();
    assert_eq!(path.repository(), "");
    assert_eq!(path.tag(), "");
}

#[test]
fn asset_path_needs_package_and_tag() {
    assert_eq!(parse_asset_path("repo").unwrap_err(), ParsePathError::MissingPackage);
    assert_eq!(parse_asset_path("").unwrap_err(), ParsePathError::MissingPackage);
    assert_eq!(
        parse_asset_path("repo/pkg").unwrap_err(),
        ParsePathError::MissingVersionTag
    );
    assert_eq!(ParsePathError::MissingPackage.message(), "missing package");
    assert_eq!(ParsePathError::MissingVersionTag.message(), "missing version tag");
    assert_eq!(ParsePathError::MissingRepository.message(), "missing repository");
}

#[test]
fn version_path_has_three_parts() {
    let path = parse_version_path("repo/pkg/v1").unwrap();
    assert_eq!(path.repository(), "repo");
    assert_eq!(path.package(), "pkg");
    assert_eq!(path.tag(), "v1");
    assert_eq!(
        parse_version_path("repo").unwrap_err(),
        ParsePathError::MissingPackage
    );
    assert_eq!(
        parse_version_path("repo/pkg").unwrap_err(),
        ParsePathError::MissingVersionTag
    );
    assert_eq!(
        parse_version_path("repo/pkg/v1/x").unwrap_err(),
        ParsePathError::TooManyParts
    );
    assert_eq!(
        ParsePathError::TooManyParts.message(),
        "too many parts in package name"
    );
}

#[test]
fn exact_asset_path_has_four_parts() {
    let path = parse_exact_asset_path("répo/pkg/v1/file.bin").unwrap();
    assert_eq!(path.repository(), "répo");
    assert_eq!(path.package(), "pkg");
    assert_eq!(path.tag(), "v1");
    assert_eq!(path.filename(), "file.bin");
    assert_eq!(
        parse_exact_asset_path("repo/pkg/v1").unwrap_err(),
        ParsePathError::MissingFilename
    );
    assert_eq!(
        parse_exact_asset_path("repo/pkg/v1/dir/file").unwrap_err(),
        ParsePathError::TooManyParts
    );
    assert_eq!(ParsePathError::MissingFilename.message(), "missing filename");
}

#[test]
fn text_is_cut_at_the_first_separator() {
    assert_eq!(split_first("a:b:c", ':'), ("a", Some("b:c")));
    assert_eq!(split_first("abc", ':'), ("abc", None));
    assert_eq!(split_first(":", ':'), ("", Some("")));
    assert_eq!(split_first("é:ü", ':'), ("é", Some("ü")));
}

#[test]
fn numbers_are_parsed_as_the_standard_library_does() {
    for text in ["0", "80", "+80", "00080", "65535", "65536", "", "+", "-1", "8 0", "８"] {
        assert_eq!(parse_u16(text), text.parse::<u16>().ok(), "{text:?}");
    }
    for text in ["0", "ff", "FF", "+a", "0ff", "100", "", "+", "-1", "g", "f f"] {
        assert_eq!(parse_hex_u8(text), u8::from_str_radix(text, 16).ok(), "{text:?}");
    }
}

#[test]
fn forward_ports_are_local_and_remote() {
    assert_eq!(
        ForwardPorts::from_str("8080:80"),
        Ok(ForwardPorts { local: 8080, remote: 80 })
    );
    assert_eq!(
        ForwardPorts::from_str("1:2:junk"),
        Ok(ForwardPorts { local: 1, remote: 2 })
    );
    assert_eq!(
        ForwardPorts::from_str("8080"),
        Err(ForwardPortsError::MissingRemotePort)
    );
    assert_eq!(
        ForwardPorts::from_str("x:80"),
        Err(ForwardPortsError::InvalidLocalPort)
    );
    assert_eq!(
        ForwardPorts::from_str("80:65536"),
        Err(ForwardPortsError::InvalidRemotePort)
    );
    assert_eq!(ForwardPorts::from_str(""), Err(ForwardPortsError::InvalidLocalPort));
}

#[test]
fn tag_argument_takes_options_behind_commas() {
    let arg = AddTagArg::from_str("stable").unwrap();
    assert_eq!((arg.tag(), arg.locked(), arg.reassign()), ("stable", false, false));
    let arg = AddTagArg::from_str("stable,locked").unwrap();
    assert_eq!((arg.tag(), arg.locked(), arg.reassign()), ("stable", true, false));
    let arg = AddTagArg::from_str("stable,reassign,locked,reassign").unwrap();
    assert_eq!((arg.tag(), arg.locked(), arg.reassign()), ("stable", true, true));
    let arg = AddTagArg::from_str("").unwrap();
    assert_eq!(arg.tag(), "");
    match AddTagArg::from_str("stable,locked,frozen,reassign").unwrap_err() {
        AddTagError::UnknownOption(option) => assert_eq!(option, "frozen"),
    }
    match AddTagArg::from_str("stable,").unwrap_err() {
        AddTagError::UnknownOption(option) => assert_eq!(option, ""),
    }
}

#[test]
fn severity_has_six_names() {
    assert_eq!(DeviceEventSeverity::from_str("trace"), Ok(DeviceEventSeverity::Trace));
    assert_eq!(DeviceEventSeverity::from_str("debug"), Ok(DeviceEventSeverity::Debug));
    assert_eq!(DeviceEventSeverity::from_str("info"), Ok(DeviceEventSeverity::Info));
    assert_eq!(
        DeviceEventSeverity::from_str("warning"),
        Ok(DeviceEventSeverity::Warning)
    );
    assert_eq!(DeviceEventSeverity::from_str("error"), Ok(DeviceEventSeverity::Error));
    assert_eq!(
        DeviceEventSeverity::from_str("critical"),
        Ok(DeviceEventSeverity::Critical)
    );
    assert_eq!(DeviceEventSeverity::from_str("Info"), Err("invalid severity"));
    assert_eq!(DeviceEventSeverity::default(), DeviceEventSeverity::Info);
}

#[test]
fn token_text_is_kept() {
    let jwt = Jwt::from_string_unchecked("a.b.c".to_owned());
    assert_eq!(jwt.as_str(), "a.b.c");
}

#[test]
fn audit_entity_is_made_of_an_id() {
    let id = ProjectId::from_raw_unchecked(RawId::new("abc"));
    match AuditEntity::from(id) {
        AuditEntity::Project(id) => assert_eq!(id.stringify(), "p_abc"),
        _ => panic!("a project id makes a project entity"),
    }
}

#[test]
fn client_token_is_written_with_its_secret() {
    let token = ClientToken::UserToken(UserToken::from_raw_unchecked(RawId::new("abc")));
    assert_eq!(token.stringify(), "u_sk_abc");
    let token =
        ClientToken::DeploymentToken(DeploymentToken::from_raw_unchecked(RawId::new("xyz")));
    assert_eq!(token.stringify(), "deployment_xyz");
}

#[test]
fn agent_config_is_built_field_by_field() {
    let token = || DeploymentToken::from_raw_unchecked(RawId::new("abc"));
    let mut config = AgentConfig::new("https://hub".to_owned(), token(), PathBuf::from("/fp"));
    assert_eq!(config.hub_url, "https://hub");
    assert_eq!(config.fingerprint_script, PathBuf::from("/fp"));
    assert!(config.ssl_cert.is_none() && config.ssl_key.is_none());
    assert!(config.dangerous_disable_tls.is_none());
    config
        .set_hub_url("https://other".to_owned())
        .set_ssl_cert(Some(PathBuf::from("/cert")))
        .set_dangerous_disable_tls(Some(true));
    assert_eq!(config.hub_url, "https://other");
    assert_eq!(config.ssl_cert, Some(PathBuf::from("/cert")));
    assert_eq!(config.dangerous_disable_tls, Some(true));
    let config = config
        .with_ssl_key(Some(PathBuf::from("/key")))
        .with_fingerprint_script(PathBuf::from("/other"))
        .with_token(DeploymentToken::from_raw_unchecked(RawId::new("xyz")));
    assert_eq!(config.ssl_key, Some(PathBuf::from("/key")));
    assert_eq!(config.fingerprint_script, PathBuf::from("/other"));
    assert_eq!(config.token.stringify(), "deployment_xyz");
    assert_eq!(config.hub_url, "https://other");
}

#[test]
fn cli_config_is_built_field_by_field() {
    let token = UserToken::from_raw_unchecked(RawId::new("abc"));
    let mut config = CliConfig::new("https://hub".to_owned(), token);
    config.set_token(UserToken::from_raw_unchecked(RawId::new("xyz")));
    assert_eq!(config.token.stringify(), "u_sk_xyz");
    let config = config.with_hub_url("https://other".to_owned());
    assert_eq!(config.hub_url, "https://other");
    assert_eq!(config.token.stringify(), "u_sk_xyz");
}

#[test]
fn references_are_ids_or_names() {
    match repository_ref("repo_ZjRcffdyfXutC6XUAkswBx").unwrap() {
        RepositoryRef::Id(id) => assert_eq!(id.stringify(), "repo_ZjRcffdyfXutC6XUAkswBx"),
        RepositoryRef::Name(_) => panic!("an id"),
    }
    match repository_ref("firmware").unwrap() {
        RepositoryRef::Name(name) => assert_eq!(name, "firmware"),
        RepositoryRef::Id(_) => panic!("a name"),
    }
    match repository_ref("repo_short").unwrap_err() {
        ReferenceError::InvalidId(error) => {
            assert_eq!(error.reason(), "invalid size of raw id (expected: 22)")
        }
        ReferenceError::InvalidPath(_) => panic!("an id that is refused"),
    }
    match package_ref("firmware/agent").unwrap() {
        PackageRef::Path { repository, package } => {
            assert_eq!((repository.as_str(), package.as_str()), ("firmware", "agent"))
        }
        PackageRef::Id(_) => panic!("a path"),
    }
    assert!(matches!(package_ref("pkg_ZjRcffdyfXutC6XUAkswBx"), Ok(PackageRef::Id(_))));
    assert!(matches!(
        package_ref("firmware"),
        Err(ReferenceError::InvalidPath(ParsePathError::MissingPackage))
    ));
    assert!(matches!(
        package_ref("a/b/c"),
        Err(ReferenceError::InvalidPath(ParsePathError::TooManyParts))
    ));
    assert!(matches!(version_ref("pkg_v_ZjRcffdyfXutC6XUAkswBx"), Ok(VersionRef::Id(_))));
    assert!(matches!(version_ref("a/b/c"), Ok(VersionRef::Path(_))));
    // What starts like the id of a version is taken for one.
    assert!(matches!(version_ref("pkg_vanilla/b/c"), Err(ReferenceError::InvalidId(_))));
    assert!(matches!(asset_ref("repo_a_ZjRcffdyfXutC6XUAkswBx"), Ok(AssetRef::Id(_))));
    assert!(matches!(asset_ref("a/b/c/d"), Ok(AssetRef::Path(_))));
    assert!(matches!(
        asset_ref("a/b/c"),
        Err(ReferenceError::InvalidPath(ParsePathError::MissingFilename))
    ));
    match nexigon::common::asset_ref("a/b/c/d/e").unwrap() {
        nexigon::common::AssetRef::Path(path) => assert_eq!(path.filename(), "d/e"),
        nexigon::common::AssetRef::Id(_) => panic!("a path"),
    }
}

#[test]
fn forward_endpoint_names_the_device_and_the_port() {
    let device = DeviceId::from_raw_unchecked(RawId::new("abc"));
    let endpoint = |remote: u16| forward_endpoint(&device, &ForwardPorts { local: 1, remote });
    assert_eq!(endpoint(8080), "device/d_abc/proxy/forward/tcp/8080");
    assert_eq!(endpoint(0), "device/d_abc/proxy/forward/tcp/0");
    assert_eq!(endpoint(65535), "device/d_abc/proxy/forward/tcp/65535");
    assert_eq!(endpoint(10000), "device/d_abc/proxy/forward/tcp/10000");
    assert_eq!(endpoint(907), "device/d_abc/proxy/forward/tcp/907");
}
