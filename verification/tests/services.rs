use companion_core::failure::{Failure, FailureKind};
use companion_core::gateway::{
    body_use, chat_request, chat_with_character, endpoint_url, make_http_request,
    make_simple_post_request, rejection, reset_conversation, save_character, BodyUse, Delivery,
    Rejection, Reply,
};
use companion_core::health::{
    check_all_services_health, check_ollama_health, check_service_health, ollama_answered,
    probe_is_up, services_answered, Probe,
};
use companion_core::status::Status;
use companion_core::supervisor::{
    start_all_services, start_go_service, start_ollama_service, start_python_service,
    start_services, Launch, Output, PythonStep, Service, StartupStep,
};
use companion_core::types::{AppState, AskResponse, ChatMessage};

fn status(code: u16) -> Status {
    Status::from_u16(code).unwrap()
}

fn rejected(code: u16) -> Rejection {
    match body_use(&status(code)) {
        BodyUse::Report(rejection) => rejection,
        BodyUse::Decode => panic!("{} stands for success", code),
    }
}

#[test]
fn body_is_decoded_exactly_on_success() {
    assert_eq!(body_use(&status(200)), BodyUse::Decode);
    assert_eq!(body_use(&status(204)), BodyUse::Decode);
    assert_eq!(body_use(&status(299)), BodyUse::Decode);
    for code in [100, 199, 300, 404, 500, 999] {
        match body_use(&status(code)) {
            BodyUse::Report(rejection) => assert_eq!(rejection.as_status(), status(code)),
            BodyUse::Decode => panic!("{} is no success", code),
        }
    }
}

#[test]
fn status_codes_run_from_100_to_999() {
    assert_eq!(Status::from_u16(0), None);
    assert_eq!(Status::from_u16(99), None);
    assert_eq!(Status::from_u16(1000), None);
    assert_eq!(Status::from_u16(u16::MAX), None);
    assert_eq!(Status::from_u16(100).map(|s| s.as_u16()), Some(100));
    assert_eq!(Status::from_u16(999).map(|s| s.as_u16()), Some(999));
    assert_eq!(status(404).as_u16(), 404);
}

#[test]
fn success_is_200_to_299() {
    assert!(!status(199).is_success());
    assert!(status(200).is_success());
    assert!(status(204).is_success());
    assert!(status(299).is_success());
    assert!(!status(300).is_success());
    assert!(!status(404).is_success());
    assert!(!status(500).is_success());
}

#[test]
fn status_line_shows_code_and_reason() {
    assert_eq!(status(200).line(), "200 OK");
    assert_eq!(status(404).line(), "404 Not Found");
    assert_eq!(status(500).line(), "500 Internal Server Error");
    assert_eq!(status(599).line(), "599 <unknown status code>");
}

#[test]
fn start_with_the_latch_unset_launches_both_services() {
    let mut state = AppState { services_running: false };
    let startup = start_services(&mut state);
    assert_eq!(
        startup.steps,
        vec![
            StartupStep::Spawn(Service::PythonLlm),
            StartupStep::Settle(2),
            StartupStep::Spawn(Service::GoApi),
            StartupStep::Settle(2),
        ]
    );
    assert_eq!(startup.message, "Services démarrés avec succès");
    assert!(state.services_running);
}

#[test]
fn second_start_launches_nothing() {
    let mut state = AppState { services_running: false };
    let first = start_services(&mut state);
    let second = start_services(&mut state);
    let third = start_services(&mut state);
    assert_eq!(first.steps.len(), 4);
    assert_eq!(second.steps, Vec::new());
    assert_eq!(second.message, "Services déjà démarrés");
    assert_eq!(third.steps, Vec::new());
    assert_eq!(state, AppState { services_running: true });
}

#[test]
fn start_with_the_latch_set_returns_at_once() {
    let mut state = AppState { services_running: true };
    let startup = start_services(&mut state);
    assert_eq!(startup.steps, Vec::new());
    assert_eq!(startup.message, "Services déjà démarrés");
    assert!(state.services_running);
}

#[test]
fn all_services_start_in_order() {
    assert_eq!(
        start_all_services(),
        vec![
            StartupStep::Spawn(Service::Ollama),
            StartupStep::Settle(5),
            StartupStep::Spawn(Service::PythonLlm),
            StartupStep::Settle(2),
            StartupStep::Spawn(Service::GoApi),
            StartupStep::Settle(2),
        ]
    );
}

#[test]
fn ollama_is_launched_with_pipes() {
    assert_eq!(
        start_ollama_service(),
        Launch {
            program: "ollama".to_string(),
            args: vec!["serve".to_string()],
            directory: None,
            output: Output::Piped,
        }
    );
}

#[test]
fn gateway_is_launched_in_its_directory() {
    assert_eq!(
        start_go_service(),
        Launch {
            program: "go".to_string(),
            args: vec!["run".to_string(), "main.go".to_string()],
            directory: Some("go-api".to_string()),
            output: Output::Inherited,
        }
    );
}

fn probed(step: PythonStep) -> Option<(String, Launch)> {
    match step {
        PythonStep::Probe { program, argument, launch } => {
            assert_eq!(argument, "--version");
            Some((program, launch))
        }
        PythonStep::NoInterpreter => None,
    }
}

fn python(program: &str) -> Option<(String, Launch)> {
    Some((
        program.to_string(),
        Launch {
            program: program.to_string(),
            args: vec!["python-llm/app.py".to_string()],
            directory: None,
            output: Output::Inherited,
        },
    ))
}

#[test]
fn python_candidates_are_tried_in_order() {
    assert_eq!(probed(start_python_service(false, 0)), python("python3"));
    assert_eq!(probed(start_python_service(false, 1)), python("python"));
    assert_eq!(probed(start_python_service(false, 2)), None);
    assert_eq!(probed(start_python_service(false, usize::MAX)), None);
}

#[test]
fn python_candidates_on_windows_start_with_the_launcher() {
    assert_eq!(probed(start_python_service(true, 0)), python("py"));
    assert_eq!(probed(start_python_service(true, 1)), python("python"));
    assert_eq!(probed(start_python_service(true, 2)), python("python3"));
    assert_eq!(probed(start_python_service(true, 3)), None);
}

#[test]
fn ollama_health_tells_three_cases_apart() {
    assert_eq!(
        check_ollama_health(&Probe::Answered(status(200))),
        Ok("Ollama opérationnel".to_string())
    );
    assert_eq!(
        check_ollama_health(&Probe::Answered(status(503))),
        Ok("Ollama répond avec le statut: 503 Service Unavailable".to_string())
    );
    assert_eq!(
        check_ollama_health(&Probe::Unreachable("connection refused".to_string())),
        Ok("Ollama non disponible: connection refused".to_string())
    );
}

#[test]
fn ollama_health_never_fails() {
    for code in [100, 200, 301, 404, 500, 599, 999] {
        assert!(check_ollama_health(&Probe::Answered(status(code))).is_ok());
    }
    assert!(check_ollama_health(&Probe::Unreachable(String::new())).is_ok());
}

#[test]
fn a_service_is_up_when_it_answers_with_success() {
    assert!(probe_is_up(&Probe::Answered(status(200))));
    assert!(probe_is_up(&Probe::Answered(status(299))));
    assert!(!probe_is_up(&Probe::Answered(status(300))));
    assert!(!probe_is_up(&Probe::Answered(status(500))));
    assert!(!probe_is_up(&Probe::Unreachable("timed out".to_string())));
}

#[test]
fn service_health_never_fails() {
    assert_eq!(
        check_service_health(&Probe::Answered(status(204))),
        Ok("Services opérationnels".to_string())
    );
    assert_eq!(
        check_service_health(&Probe::Answered(status(500))),
        Ok("Services répondent avec le statut: 500 Internal Server Error".to_string())
    );
    assert_eq!(
        check_service_health(&Probe::Unreachable("connection refused".to_string())),
        Ok("Services non disponibles".to_string())
    );
}

#[test]
fn health_report_has_two_lines() {
    let up = Probe::Answered(status(200));
    let down = Probe::Unreachable("connection refused".to_string());
    let sick = Probe::Answered(status(500));
    assert_eq!(
        check_all_services_health(&up, &up),
        Ok("🤖 Ollama: Ollama opérationnel\n🔧 Services: Services opérationnels".to_string())
    );
    assert_eq!(
        check_all_services_health(&down, &down),
        Ok("❌ Ollama: Ollama non disponible: connection refused\n🔧 Services: Services non disponibles"
            .to_string())
    );
    assert_eq!(
        check_all_services_health(&sick, &sick),
        Ok("❌ Ollama: Ollama répond avec le statut: 500 Internal Server Error\n🔧 Services: Services répondent avec le statut: 500 Internal Server Error"
            .to_string())
    );
    assert_eq!(
        check_all_services_health(&down, &up),
        Ok("❌ Ollama: Ollama non disponible: connection refused\n🔧 Services: Services opérationnels"
            .to_string())
    );
    assert_eq!(
        check_all_services_health(&up, &sick),
        Ok("🤖 Ollama: Ollama opérationnel\n🔧 Services: Services répondent avec le statut: 500 Internal Server Error"
            .to_string())
    );
}

#[test]
fn health_report_has_exactly_two_lines() {
    let probes = || {
        vec![
            Probe::Answered(status(200)),
            Probe::Answered(status(404)),
            Probe::Answered(status(599)),
            Probe::Unreachable("connection refused".to_string()),
            Probe::Unreachable(String::new()),
        ]
    };
    for ollama in probes() {
        for services in probes() {
            let report = check_all_services_health(&ollama, &services).unwrap();
            assert_eq!(report.lines().count(), 2);
            assert_eq!(report.matches('\n').count(), 1);
            assert!(report.lines().all(|line| !line.is_empty()));
        }
    }
}

#[test]
fn status_line_holds_no_line_feed() {
    for code in 100..=999 {
        assert!(!status(code).line().contains('\n'));
    }
}

#[test]
fn endpoint_url_starts_at_the_base_address() {
    assert_eq!(endpoint_url("/ask"), "http://localhost:8080/ask");
    assert_eq!(endpoint_url("/reset"), "http://localhost:8080/reset");
    assert_eq!(endpoint_url(""), "http://localhost:8080");
}

#[test]
fn gateway_failure_carries_status_and_body() {
    let r: Result<AskResponse, Failure> =
        make_http_request(Reply::Rejected(rejected(500), Some("model crashed".to_string())));
    assert_eq!(
        r,
        Err(Failure {
            kind: FailureKind::GatewayFailure { status: 500, body: "model crashed".to_string() },
            message: "Erreur API 500 Internal Server Error: model crashed".to_string(),
        })
    );
}

#[test]
fn gateway_failure_without_a_readable_body() {
    let r: Result<AskResponse, Failure> = make_http_request(Reply::Rejected(rejected(404), None));
    assert_eq!(
        r,
        Err(Failure {
            kind: FailureKind::GatewayFailure {
                status: 404,
                body: "Impossible de lire le corps de la réponse".to_string(),
            },
            message: "Erreur API 404 Not Found: Impossible de lire le corps de la réponse".to_string(),
        })
    );
}

#[test]
fn gateway_success_gives_the_value() {
    let r = make_http_request(Reply::Decoded(AskResponse { answer: "42".to_string() }));
    assert_eq!(r, Ok(AskResponse { answer: "42".to_string() }));
}

#[test]
fn gateway_transport_and_decode_failures() {
    let r: Result<AskResponse, Failure> =
        make_http_request(Reply::Unreachable("connection refused".to_string()));
    assert_eq!(
        r,
        Err(Failure {
            kind: FailureKind::TransportFailure,
            message: "Erreur de connexion à l'API: connection refused".to_string(),
        })
    );
    let r: Result<AskResponse, Failure> =
        make_http_request(Reply::Undecodable("missing field `answer`".to_string()));
    assert_eq!(
        r,
        Err(Failure {
            kind: FailureKind::DecodeFailure,
            message: "Erreur de parsing de la réponse: missing field `answer`".to_string(),
        })
    );
}

#[test]
fn simple_post_is_acknowledged() {
    assert_eq!(make_simple_post_request(Delivery::Accepted), Ok("Opération réussie".to_string()));
    assert_eq!(reset_conversation(Delivery::Accepted), Ok("Conversation réinitialisée".to_string()));
    assert_eq!(save_character(Delivery::Accepted), Ok("Personnage sauvegardé".to_string()));
}

#[test]
fn simple_post_failures() {
    assert_eq!(
        make_simple_post_request(Delivery::Unreachable("timed out".to_string())),
        Err(Failure {
            kind: FailureKind::TransportFailure,
            message: "Erreur de connexion: timed out".to_string(),
        })
    );
    assert_eq!(
        reset_conversation(Delivery::Rejected(rejected(400), Some("no such user".to_string()))),
        Err(Failure {
            kind: FailureKind::GatewayFailure { status: 400, body: "no such user".to_string() },
            message: "Erreur 400 Bad Request: no such user".to_string(),
        })
    );
    assert_eq!(
        save_character(Delivery::Rejected(rejected(500), None)),
        Err(Failure {
            kind: FailureKind::GatewayFailure {
                status: 500,
                body: "Impossible de lire le corps de la réponse".to_string(),
            },
            message: "Erreur 500 Internal Server Error: Impossible de lire le corps de la réponse"
                .to_string(),
        })
    );
}

#[test]
fn chat_request_carries_the_conversation() {
    let history = vec![ChatMessage {
        role: "user".to_string(),
        content: "hello".to_string(),
        timestamp: None,
    }];
    let request = chat_request(
        "how are you?".to_string(),
        "hero".to_string(),
        "me".to_string(),
        history.clone(),
    );
    assert_eq!(request.question, "how are you?");
    assert_eq!(request.character_id, "hero");
    assert_eq!(request.user_id, "me");
    assert_eq!(request.model, "dolphin-mistral");
    assert_eq!(request.memory, history);
}

#[test]
fn chat_gives_the_answer_or_marks_the_failure() {
    assert_eq!(
        chat_with_character(Ok(AskResponse { answer: "fine".to_string() })),
        Ok("fine".to_string())
    );
    let failure = Failure {
        kind: FailureKind::GatewayFailure { status: 500, body: "boom".to_string() },
        message: "Erreur API 500 Internal Server Error: boom".to_string(),
    };
    assert_eq!(
        chat_with_character(Err(failure)),
        Err(Failure {
            kind: FailureKind::GatewayFailure { status: 500, body: "boom".to_string() },
            message: "Erreur LLM: Erreur API 500 Internal Server Error: boom".to_string(),
        })
    );
}

#[test]
fn answers_are_told_by_success_and_line() {
    assert_eq!(ollama_answered(true, "200 OK"), "Ollama opérationnel");
    assert_eq!(
        ollama_answered(false, "418 I'm a teapot"),
        "Ollama répond avec le statut: 418 I'm a teapot"
    );
    assert_eq!(services_answered(true, "204 No Content"), "Services opérationnels");
    assert_eq!(
        services_answered(false, "502 Bad Gateway"),
        "Services répondent avec le statut: 502 Bad Gateway"
    );
}

#[test]
fn rejection_is_made_of_prefix_line_and_body() {
    assert_eq!(
        rejection("Erreur API ", 502, "502 Bad Gateway", Some("upstream down".to_string())),
        Failure {
            kind: FailureKind::GatewayFailure { status: 502, body: "upstream down".to_string() },
            message: "Erreur API 502 Bad Gateway: upstream down".to_string(),
        }
    );
    assert_eq!(
        rejection("Erreur ", 500, "500 Internal Server Error", Some(String::new())),
        Failure {
            kind: FailureKind::GatewayFailure { status: 500, body: String::new() },
            message: "Erreur 500 Internal Server Error: ".to_string(),
        }
    );
}

#[test]
fn a_reason_of_two_lines_shows_in_the_report_as_it_is() {
    let down = Probe::Unreachable("connection refused\ntry again".to_string());
    let up = Probe::Answered(status(200));
    assert_eq!(
        check_all_services_health(&down, &up),
        Ok("❌ Ollama: Ollama non disponible: connection refused\ntry again\n🔧 Services: Services opérationnels"
            .to_string())
    );
    assert_eq!(
        check_all_services_health(&up, &down),
        Ok("🤖 Ollama: Ollama opérationnel\n🔧 Services: Services non disponibles".to_string())
    );
}
