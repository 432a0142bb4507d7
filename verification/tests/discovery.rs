use lldb_safe::discovery::Source;
use lldb_safe::{
    CommandOutput, Discovery, DiscoveryStep, HostOs, LldbConfig, LocalPath, PrefixProbe, PrefixQuery,
    PrefixStep, Request,
};

/// A path written out with `/` between its root and components.
fn flat(p: &LocalPath) -> String {
    let mut s = p.root.clone();
    for part in &p.parts {
        s.push('/');
        s.push_str(part);
    }
    s
}

/// Runs the prefix check against a fake file system.
fn check_prefix(prefix: LocalPath, os: HostOs, existing: &[&str], version: Option<&str>) -> (Option<LldbConfig>, Vec<String>) {
    let mut asked = Vec::new();
    let (mut probe, mut query) = PrefixProbe::new(prefix, os);
    loop {
        match query {
            PrefixQuery::PathExists(p) => {
                let f = flat(&p);
                let exists = existing.contains(&f.as_str());
                asked.push(f);
                match probe.on_exists(exists) {
                    PrefixStep::Ask(next, q) => {
                        probe = next;
                        query = q;
                    }
                    PrefixStep::Done(cfg) => return (cfg, asked),
                }
            }
            PrefixQuery::LldbVersion(b) => {
                asked.push(format!("run {} --version", flat(&b)));
                return (Some(probe.on_version_output(version.map(|v| v.to_string()))), asked);
            }
        }
    }
}

#[test]
fn linux_prefix_prefers_the_versioned_library() {
    let fs = [
        "/usr/lib/llvm-19/include/lldb/API/LLDB.h",
        "/usr/lib/llvm-19/lib/liblldb-19.so",
    ];
    let (cfg, asked) = check_prefix(LocalPath::new("/usr/lib/llvm-19"), HostOs::Linux, &fs, Some("lldb version 19.1.7\n"));
    let cfg = cfg.unwrap();
    assert_eq!(cfg.lib_name, "lldb-19");
    assert_eq!(cfg.version, "19.1.7");
    assert_eq!(flat(&cfg.prefix), "/usr/lib/llvm-19");
    assert_eq!(flat(&cfg.include_dir), "/usr/lib/llvm-19/include");
    assert_eq!(flat(&cfg.lib_dir), "/usr/lib/llvm-19/lib");
    assert_eq!(flat(&cfg.bin_dir), "/usr/lib/llvm-19/bin");
    assert_eq!(
        asked,
        vec![
            "/usr/lib/llvm-19/include/lldb/API/LLDB.h",
            "/usr/lib/llvm-19/lib/liblldb-19.so",
            "/usr/lib/llvm-19/lib/liblldb-19.so",
            "run /usr/lib/llvm-19/bin/lldb --version",
        ]
    );
}

#[test]
fn linux_prefix_falls_back_to_the_plain_library() {
    let fs = ["/p/include/lldb/API/LLDB.h", "/p/lib/liblldb.so"];
    let (cfg, _) = check_prefix(LocalPath::new("/p"), HostOs::Linux, &fs, None);
    let cfg = cfg.unwrap();
    assert_eq!(cfg.lib_name, "lldb");
    assert_eq!(cfg.version, "unknown");
}

#[test]
fn windows_and_macos_library_names() {
    let win = ["C:/LLVM/include/lldb/API/LLDB.h", "C:/LLVM/lib/liblldb.lib"];
    let (cfg, asked) = check_prefix(LocalPath::new("C:/LLVM"), HostOs::Windows, &win, Some("lldb version 19.1.7"));
    assert_eq!(cfg.unwrap().lib_name, "liblldb");
    assert_eq!(asked.last().unwrap(), "run C:/LLVM/bin/lldb.exe --version");

    let mac = ["/opt/llvm/include/lldb/API/LLDB.h", "/opt/llvm/lib/liblldb.dylib"];
    let (cfg, _) = check_prefix(LocalPath::new("/opt/llvm"), HostOs::MacOs, &mac, Some("no digits"));
    let cfg = cfg.unwrap();
    assert_eq!(cfg.lib_name, "lldb");
    assert_eq!(cfg.version, "unknown");
}

#[test]
fn prefix_without_header_or_library_is_rejected() {
    let (cfg, asked) = check_prefix(LocalPath::new("/empty"), HostOs::Linux, &[], None);
    assert!(cfg.is_none());
    assert_eq!(asked, vec!["/empty/include/lldb/API/LLDB.h"]);

    let header_only = ["/h/include/lldb/API/LLDB.h"];
    let (cfg, asked) = check_prefix(LocalPath::new("/h"), HostOs::Linux, &header_only, None);
    assert!(cfg.is_none());
    assert_eq!(asked.len(), 3);
    assert_eq!(asked[2], "/h/lib/liblldb.so");
}

#[test]
fn local_path_join_appends_components() {
    let p = LocalPath::new("/usr").join("lib").join("llvm-19");
    assert_eq!(p.root, "/usr");
    assert_eq!(p.parts, vec!["lib".to_string(), "llvm-19".to_string()]);
    let q = p.duplicate();
    assert_eq!(flat(&q), "/usr/lib/llvm-19");
}

/// What a fake environment answers.
struct World {
    env: Vec<(&'static str, &'static str)>,
    commands: Vec<(String, CommandOutput)>,
    prefixes: Vec<&'static str>,
}

fn describe(req: &Request) -> String {
    match req {
        Request::ReadEnv(v) => format!("env {}", v),
        Request::Run(p, args) => format!("run {} {}", p, args.join(" ")),
        Request::CheckPrefix(p) => format!("check {}", flat(p)),
    }
}

/// Runs the search, recording every request.
fn search(os: HostOs, world: &World) -> (Result<String, String>, Vec<String>) {
    let mut log = Vec::new();
    let mut step = Discovery::start(os);
    loop {
        match step {
            DiscoveryStep::Found(cfg) => return (Ok(flat(&cfg.prefix)), log),
            DiscoveryStep::NotFound(msg) => return (Err(msg), log),
            DiscoveryStep::Ask(d, req) => {
                log.push(describe(&req));
                step = match req {
                    Request::ReadEnv(name) => {
                        let v = world.env.iter().find(|(k, _)| *k == name).map(|(_, v)| v.to_string());
                        d.on_env(v)
                    }
                    Request::Run(prog, args) => {
                        let line = format!("{} {}", prog, args.join(" "));
                        let out = world.commands.iter().find(|(c, _)| *c == line).map(|(_, o)| CommandOutput {
                            success: o.success,
                            stdout: o.stdout.clone(),
                        });
                        d.on_output(out)
                    }
                    Request::CheckPrefix(p) => {
                        let f = flat(&p);
                        let cfg = if world.prefixes.contains(&f.as_str()) {
                            let fs: Vec<String> = ["include/lldb/API/LLDB.h", "lib/liblldb.lib", "lib/liblldb.dylib", "lib/liblldb.so"]
                                .iter()
                                .map(|x| format!("{}/{}", f, x))
                                .collect();
                            let fs_refs: Vec<&str> = fs.iter().map(|x| x.as_str()).collect();
                            check_prefix(p, os, &fs_refs, None).0
                        } else {
                            None
                        };
                        d.on_prefix_checked(cfg)
                    }
                };
            }
        }
    }
}

const NOT_FOUND: &str = "LLDB not found. Set LLDB_SYS_PREFIX to your LLVM installation directory (e.g. C:\\Program Files\\LLVM on Windows, /usr/lib/llvm-19 on Linux, /opt/homebrew/opt/llvm@19 on macOS).";

#[test]
fn linux_search_order_when_nothing_is_found() {
    let world = World { env: vec![], commands: vec![], prefixes: vec![] };
    let (r, log) = search(HostOs::Linux, &world);
    assert_eq!(r, Err(NOT_FOUND.to_string()));
    assert_eq!(
        log,
        vec![
            "env LLDB_SYS_PREFIX",
            "env LLVM_SYS_PREFIX",
            "env LLVM_CONFIG",
            "check /usr/lib/llvm-19",
            "check /usr/local/lib/llvm-19",
            "check /usr/lib/llvm",
            "run llvm-config-19 --prefix",
            "run llvm-config19 --prefix",
            "run llvm-config --prefix",
        ]
    );
}

#[test]
fn windows_search_order_includes_registry_chocolatey_and_scoop() {
    let world = World { env: vec![("USERPROFILE", "C:/Users/me")], commands: vec![], prefixes: vec![] };
    let (r, log) = search(HostOs::Windows, &world);
    assert!(r.is_err());
    assert_eq!(
        log,
        vec![
            "env LLDB_SYS_PREFIX",
            "env LLVM_SYS_PREFIX",
            "env LLVM_CONFIG",
            "run reg query HKLM\\SOFTWARE\\LLVM\\LLVM /v InstallDir",
            "check C:\\ProgramData\\chocolatey\\lib\\llvm\\tools\\llvm",
            "env USERPROFILE",
            "check C:/Users/me/scoop/apps/llvm/current",
            "check C:\\lldb-dev",
            "check C:\\Program Files\\LLVM",
            "check C:\\LLVM",
            "run llvm-config-19 --prefix",
            "run llvm-config19 --prefix",
            "run llvm-config --prefix",
        ]
    );
}

#[test]
fn macos_known_paths() {
    let world = World { env: vec![], commands: vec![], prefixes: vec!["/usr/local/opt/llvm@19"] };
    let (r, log) = search(HostOs::MacOs, &world);
    assert_eq!(r, Ok("/usr/local/opt/llvm@19".to_string()));
    assert_eq!(log[3..], ["check /opt/homebrew/opt/llvm@19", "check /opt/homebrew/opt/llvm", "check /usr/local/opt/llvm@19"]);
}

#[test]
fn first_match_wins() {
    let world = World {
        env: vec![("LLVM_SYS_PREFIX", "/from/env")],
        commands: vec![],
        prefixes: vec!["/from/env", "/usr/lib/llvm-19"],
    };
    let (r, log) = search(HostOs::Linux, &world);
    assert_eq!(r, Ok("/from/env".to_string()));
    assert_eq!(log, vec!["env LLDB_SYS_PREFIX", "env LLVM_SYS_PREFIX", "check /from/env"]);
}

#[test]
fn an_unusable_env_prefix_moves_on() {
    let world = World {
        env: vec![("LLDB_SYS_PREFIX", "/broken")],
        commands: vec![],
        prefixes: vec!["/usr/lib/llvm"],
    };
    let (r, log) = search(HostOs::Linux, &world);
    assert_eq!(r, Ok("/usr/lib/llvm".to_string()));
    assert_eq!(log[0..2], ["env LLDB_SYS_PREFIX", "check /broken"]);
}

#[test]
fn llvm_config_output_is_trimmed() {
    let world = World {
        env: vec![("LLVM_CONFIG", "/opt/bin/llvm-config")],
        commands: vec![(
            "/opt/bin/llvm-config --prefix".to_string(),
            CommandOutput { success: true, stdout: "/opt/llvm-19\n".to_string() },
        )],
        prefixes: vec!["/opt/llvm-19"],
    };
    let (r, log) = search(HostOs::Linux, &world);
    assert_eq!(r, Ok("/opt/llvm-19".to_string()));
    assert_eq!(log[2..], ["env LLVM_CONFIG", "run /opt/bin/llvm-config --prefix", "check /opt/llvm-19"]);
}

#[test]
fn failed_commands_move_on() {
    let world = World {
        env: vec![],
        commands: vec![
            ("llvm-config-19 --prefix".to_string(), CommandOutput { success: false, stdout: "/x\n".to_string() }),
            ("llvm-config19 --prefix".to_string(), CommandOutput { success: true, stdout: " /y ".to_string() }),
        ],
        prefixes: vec!["/x", "/y"],
    };
    let (r, _) = search(HostOs::Linux, &world);
    assert_eq!(r, Ok("/y".to_string()));
}

#[test]
fn registry_output_names_the_prefix() {
    let world = World {
        env: vec![],
        commands: vec![(
            "reg query HKLM\\SOFTWARE\\LLVM\\LLVM /v InstallDir".to_string(),
            CommandOutput {
                success: true,
                stdout: "\r\nHKEY_LOCAL_MACHINE\\SOFTWARE\\LLVM\\LLVM\r\n    InstallDir    REG_SZ    D:\\LLVM\r\n".to_string(),
            },
        )],
        prefixes: vec!["D:\\LLVM"],
    };
    let (r, log) = search(HostOs::Windows, &world);
    assert_eq!(r, Ok("D:\\LLVM".to_string()));
    assert_eq!(log.last().unwrap(), "check D:\\LLVM");
}

#[test]
fn sources_for_each_os() {
    assert_eq!(lldb_safe::discovery::sources_for(HostOs::Linux).len(), 9);
    assert_eq!(lldb_safe::discovery::sources_for(HostOs::MacOs).len(), 10);
    let win = lldb_safe::discovery::sources_for(HostOs::Windows);
    assert_eq!(win.len(), 12);
    assert!(matches!(win[3], Source::Registry));
    assert!(matches!(win[5], Source::Scoop));
}

#[test]
fn command_output_from_bytes_decodes_lossily() {
    let o = CommandOutput::from_bytes(true, b"/opt/llvm\xff\n");
    assert!(o.success);
    assert_eq!(o.stdout, "/opt/llvm\u{fffd}\n");
    assert!(!CommandOutput::from_bytes(false, b"").success);
}

#[test]
fn version_bytes_are_decoded_before_parsing() {
    let fs = ["/q/include/lldb/API/LLDB.h", "/q/lib/liblldb.so"];
    let (probe, _) = PrefixProbe::new(LocalPath::new("/q"), HostOs::Linux);
    let PrefixStep::Ask(probe, _) = probe.on_exists(fs.contains(&"/q/include/lldb/API/LLDB.h")) else { unreachable!() };
    let PrefixStep::Ask(probe, _) = probe.on_exists(false) else { unreachable!() };
    let PrefixStep::Ask(probe, _) = probe.on_exists(true) else { unreachable!() };
    let cfg = probe.on_version_bytes(Some(b"lldb version 19.1.7\xff\n"));
    assert_eq!(cfg.version, "19.1.7\u{fffd}");
}
