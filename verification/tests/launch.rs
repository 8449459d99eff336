use minecraft_essentials::errors::{LaunchErrors, ModPlatformsErrors, ModrinthErrors};
use minecraft_essentials::launch::{
    arch_support, arch_url, java_url, jre_archive, ArchUrl, LaunchArgs, LaunchBuilder,
    LauncherDirs, JRE,
};
use minecraft_essentials::modrinth::{project_url, GithubModrinth, Modrinth};

fn dirs() -> LauncherDirs {
    LauncherDirs {
        game_dir: "/g".to_string(),
        assets_dir: "/a".to_string(),
        libraries_dir: "/l".to_string(),
        natives_dir: "/n".to_string(),
        java_dir: "/j".to_string(),
    }
}

fn entry(arch: Option<&str>, url: &str) -> ArchUrl {
    ArchUrl { arch: arch.map(|a| a.to_string()), os: None, url: url.to_string() }
}

#[test]
fn adoptium_names_x86_64_as_x64() {
    assert_eq!(
        java_url(JRE::Adoptium, "17", "linux", "x86_64").unwrap(),
        "https://api.adoptium.net/v3/binary/latest/17/ga/linux/x64/jre/hotspot/normal/eclipse"
    );
    assert_eq!(
        java_url(JRE::Adoptium, "21", "macos", "aarch64").unwrap(),
        "https://api.adoptium.net/v3/binary/latest/21/ga/macos/aarch64/jre/hotspot/normal/eclipse"
    );
}

#[test]
fn graalvm_has_an_archive_for_windows_on_x86() {
    assert_eq!(
        java_url(JRE::GraalVM, "21", "windows", "x86").unwrap(),
        "https://download.oracle.com/graalvm/21/latest/graalvm-jdk-21_windows-x64_bin.zip"
    );
    assert_eq!(
        java_url(JRE::GraalVM, "21", "linux", "aarch64").unwrap(),
        "https://download.oracle.com/graalvm/21/latest/graalvm-jdk-21_linux-aarch64_bin.tar.gz"
    );
}

#[test]
fn zulu_is_not_on_offer() {
    assert!(matches!(
        java_url(JRE::Zulu, "17", "linux", "x86_64"),
        Err(LaunchErrors::Requirements(w)) if w == "Zulu is not supported yet"
    ));
}

#[test]
fn arch_url_takes_the_first_entry_that_fits() {
    let entries = vec![entry(Some("arm"), "A"), entry(Some("x86"), "B"), entry(None, "C"), entry(Some("x86"), "D")];
    assert_eq!(arch_url(&entries, None, "linux", "x86"), Some("B".to_string()));
    assert_eq!(arch_url(&entries, None, "linux", "arm"), Some("A".to_string()));
    assert_eq!(arch_url(&entries, None, "linux", "riscv"), Some("C".to_string()));
    assert_eq!(arch_url(&entries, Some("linux"), "linux", "x86"), Some("B".to_string()));
    assert_eq!(arch_url(&entries, Some("windows"), "linux", "x86"), None);
    assert_eq!(arch_url(&vec![entry(Some("arm"), "A")], None, "linux", "x86"), None);
    assert_eq!(arch_url(&Vec::new(), None, "linux", "x86"), None);
}

#[test]
fn arch_support_names_the_processor_that_is_missing() {
    let supports = vec!["x86_64", "x86", "aarch64"];
    assert!(arch_support(&supports, "aarch64").is_ok());
    assert!(matches!(
        arch_support(&supports, "arm"),
        Err(LaunchErrors::UnsupportedArchitecture(a)) if a == "arm"
    ));
    assert!(arch_support(&Vec::new(), "x86").is_err());
}

#[test]
fn jre_archive_by_system() {
    assert_eq!(jre_archive(true), "jre.zip");
    assert_eq!(jre_archive(false), "jre.tar.gz");
}

#[test]
fn launch_builder_keeps_what_is_set() {
    let mut builder = LaunchBuilder::init();
    assert!(builder.arguments().is_empty());
    builder
        .args(vec!["-Xss1M".to_string()])
        .java(Some("/usr/bin/java".to_string()))
        .client(None)
        .mods(Some(vec!["a.jar".to_string()]));
    assert_eq!(builder.arguments(), &vec!["-Xss1M".to_string()]);
    builder.prepare(false);
    assert_eq!(builder.arguments().len(), 1);
    builder.prepare(true);
    assert_eq!(
        builder.arguments(),
        &vec!["-Xss1M".to_string(), "-XstartOnFirstThread".to_string()]
    );
}

#[test]
fn game_settings_with_everything_set() {
    let mut args = LaunchArgs::builder();
    args.game_settings(
        Some((1280, 720)),
        Some(("launcher".to_string(), "1.0".to_string())),
        dirs(),
        Some(("1.20.4".to_string(), "release".to_string())),
        (512, Some(4096)),
    );
    let expected: Vec<String> = vec![
        "--Xms512m",
        "-Dminecraft.launcher.brand=launcher",
        "--Dminecraft.launcher.version=1.0",
        "--version 1.20.4",
        "--versionType release",
        "--width 1280",
        "--height 720",
        "--Xmx4096M",
        "--gameDir /g",
        "--assetsDir /a",
        "--assetsIndex /a/index.json",
        "--librariesDir /l",
        "--nativesDir /n",
        "--javaDir /j",
    ]
    .into_iter()
    .map(String::from)
    .collect();
    assert_eq!(args.arguments(), &expected);
}

#[test]
fn game_settings_with_the_least_set_and_twice() {
    let mut args = LaunchArgs::builder();
    args.game_settings(None, None, dirs(), None, (0, None));
    assert_eq!(args.arguments().len(), 7);
    assert_eq!(args.arguments()[0], "--Xms0m");
    assert_eq!(args.arguments()[1], "--gameDir /g");
    args.game_settings(None, None, dirs(), None, (65535, None));
    assert_eq!(args.arguments().len(), 14);
    assert_eq!(args.arguments()[7], "--Xms65535m");
}

#[test]
fn modrinth_client_shows_itself_by_repository_and_contact() {
    let client = Modrinth::init(
        GithubModrinth {
            owner: "modrinth".to_string(),
            repo: "modrinth".to_string(),
            project_version: "0.2.12".to_string(),
            access_token: None,
        },
        "contact@minecraft-essentials.com".to_string(),
    );
    assert_eq!(client.user_agent(), "modrinth/modrinth/0.2.12 (contact@minecraft-essentials.com)");
    assert_eq!(client.access_token(), "");
    let with_token = Modrinth::init(
        GithubModrinth {
            owner: "o".to_string(),
            repo: "r".to_string(),
            project_version: "1".to_string(),
            access_token: Some("tok".to_string()),
        },
        "e".to_string(),
    );
    assert_eq!(with_token.access_token(), "tok");
    assert_eq!(project_url("fabric-api"), "https://api.modrinth.com/v2/project/fabric-api");
}

#[test]
fn launch_and_platform_errors_show_their_words() {
    assert_eq!(
        LaunchErrors::UnsupportedArchitecture("arm".to_string()).message(),
        "Unsuported Archtechure: arm switch to another cpu archtechure and try again."
    );
    assert_eq!(LaunchErrors::UnsupportedDevice("x".to_string()).message(), "Unsupported Device: x");
    assert_eq!(LaunchErrors::UsernameFetchError("x".to_string()).message(), "Failed to fetch username x");
    assert_eq!(LaunchErrors::ResponseError("x".to_string()).message(), "Response Failed: x");
    assert_eq!(LaunchErrors::Requirements("x".to_string()).message(), "Requirements not reached: x");
    assert_eq!(ModPlatformsErrors::RequestError("x".to_string()).message(), "The request failed: x.");
    assert_eq!(
        ModPlatformsErrors::DeserializationError("x".to_string()).message(),
        "The response could not be deserialized: x."
    );
    assert_eq!(
        ModPlatformsErrors::SerializationError("x".to_string()).message(),
        "The response could not be serialized: x."
    );
    assert_eq!(ModrinthErrors::RateLimited.message(), "You are being rate limited.");
    assert_eq!(
        ModrinthErrors::AuthenticationRequired.message(),
        "The request was not authenticated with a Access Token."
    );
}
