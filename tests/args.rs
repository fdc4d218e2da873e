use std::path::PathBuf;

use shuttle_core::args::{Framework, InitArgs, LoginArgs, IDLE_MINUTES};
use shuttle_core::project::ProjectName;

fn init_args_factory(framework: &str) -> InitArgs {
    let mut init_args = InitArgs {
        actix_web: false,
        axum: false,
        rocket: false,
        tide: false,
        tower: false,
        poem: false,
        salvo: false,
        serenity: false,
        poise: false,
        warp: false,
        thruster: false,
        no_framework: false,
        new: false,
        login_args: LoginArgs { api_key: None },
        path: PathBuf::new(),
    };

    match framework {
        "actix-web" => init_args.actix_web = true,
        "axum" => init_args.axum = true,
        "rocket" => init_args.rocket = true,
        "tide" => init_args.tide = true,
        "tower" => init_args.tower = true,
        "poem" => init_args.poem = true,
        "salvo" => init_args.salvo = true,
        "serenity" => init_args.serenity = true,
        "poise" => init_args.poise = true,
        "warp" => init_args.warp = true,
        "thruster" => init_args.thruster = true,
        "none" => init_args.no_framework = true,
        _ => unreachable!(),
    }

    init_args
}

#[test]
fn test_init_args_framework() {
    for framework in Framework::all() {
        let args = init_args_factory(&framework.name().to_string());
        assert_eq!(args.framework(), Some(framework));
    }
}

#[test]
fn no_flag_means_no_framework() {
    let mut args = init_args_factory("axum");
    args.axum = false;
    assert_eq!(args.framework(), None);
}

#[test]
fn first_flag_in_order_wins() {
    let mut args = init_args_factory("none");
    args.warp = true;
    assert_eq!(args.framework(), Some(Framework::Warp));
    args.poise = true;
    args.serenity = true;
    assert_eq!(args.framework(), Some(Framework::Poise));
    args.actix_web = true;
    assert_eq!(args.framework(), Some(Framework::ActixWeb));
}

#[test]
fn every_framework_listed_once() {
    let all = Framework::all();
    assert_eq!(all.len(), 12);
    assert_eq!(all[0].name(), "actix-web");
    assert_eq!(all[11].name(), "none");
    assert_eq!(IDLE_MINUTES, 30);
}

#[test]
fn project_name_parsing() {
    let p = ProjectName::parse("hello-world".to_string());
    assert_eq!(p.map(|p| p.as_str().to_string()), Some("hello-world".to_string()));
    assert!(ProjectName::parse("no".to_string()).is_none());
    assert!(ProjectName::parse("Hello".to_string()).is_none());
}
