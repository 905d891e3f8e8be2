use capnp_study::{Opt, Role};

fn opt_with_role(program: &str) -> Opt {
    Opt { program: program.to_string(), host: "127.0.0.1".to_string(), port: 4321 }
}

#[test]
fn default_options() {
    let opt = Opt::default();
    assert_eq!(opt.program, "server");
    assert_eq!(opt.host, "127.0.0.1");
    assert_eq!(opt.port, 4321);
    assert_eq!(opt.role(), Some(Role::Server));
}

#[test]
fn roles_by_name() {
    assert_eq!(opt_with_role("client").role(), Some(Role::Client));
    assert_eq!(opt_with_role("server").role(), Some(Role::Server));
    assert_eq!(opt_with_role("Client").role(), None);
    assert_eq!(opt_with_role("").role(), None);
    assert_eq!(opt_with_role("servers").role(), None);
}

#[test]
fn address_joins_host_and_port() {
    let opt = Opt::default();
    assert_eq!(opt.address(), "127.0.0.1:4321");
    let opt = Opt { program: "client".to_string(), host: "localhost".to_string(), port: 8001 };
    assert_eq!(opt.address(), "localhost:8001");
    let opt = Opt { program: "server".to_string(), host: String::new(), port: 0 };
    assert_eq!(opt.address(), ":0");
}
