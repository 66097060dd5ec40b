//! The health report: what to say of each service after probing it. A health
//! check is advice: it gives a text in every case and never fails.

use crate::status::{status_line, Status};
use crate::text::{join2, join3};
use vstd::prelude::*;
use vstd::string::*;

verus! {

/// The address that is probed for the model server.
pub const OLLAMA_HEALTH_URL: &'static str = "http://localhost:11434/api/tags";

/// The address that is probed for the gateway.
pub const SERVICE_HEALTH_URL: &'static str = "http://localhost:8080/health";

/// What came of probing a service.
#[derive(Debug)]
pub enum Probe {
    /// The service answered with this status.
    Answered(Status),
    /// The service could not be reached; the text says why.
    Unreachable(String),
}

/// Whether a probe found its service up: it answered, and with success.
pub open spec fn is_up(probe: Probe) -> bool {
    probe matches Probe::Answered(status) && status.success()
}

/// What is said of the model server that answered, by its status and the line
/// that shows it.
pub open spec fn ollama_answer(success: bool, line: Seq<char>) -> Seq<char> {
    if success {
        "Ollama opérationnel"@
    } else {
        "Ollama répond avec le statut: "@ + line
    }
}

/// What is said of the gateway that answered, by its status and the line that
/// shows it.
pub open spec fn services_answer(success: bool, line: Seq<char>) -> Seq<char> {
    if success {
        "Services opérationnels"@
    } else {
        "Services répondent avec le statut: "@ + line
    }
}

/// What is said of the model server after probing it: what its answer gives,
/// or that it is not available and why.
pub open spec fn ollama_status(probe: Probe) -> Seq<char> {
    match probe {
        Probe::Answered(status) => ollama_answer(status.success(), status_line(status.code())),
        Probe::Unreachable(why) => "Ollama non disponible: "@ + why@,
    }
}

/// What is said of the gateway after probing it: what its answer gives, or
/// that it is not available.
pub open spec fn services_status(probe: Probe) -> Seq<char> {
    match probe {
        Probe::Answered(status) => services_answer(status.success(), status_line(status.code())),
        Probe::Unreachable(_) => "Services non disponibles"@,
    }
}

/// The line of the report on the model server: a mark that tells up from
/// down, and what is said of the server.
pub open spec fn ollama_line(probe: Probe) -> Seq<char> {
    if is_up(probe) {
        "🤖 Ollama: "@ + ollama_status(probe)
    } else {
        "❌ Ollama: "@ + ollama_status(probe)
    }
}

/// The line of the report on the gateway.
pub open spec fn services_line(probe: Probe) -> Seq<char> {
    "🔧 Services: "@ + services_status(probe)
}

/// Whether what a probe has to show of its own stands on one line: the reason
/// why a service could not be reached holds no line feed.
pub open spec fn on_one_line(probe: Probe) -> bool {
    probe matches Probe::Unreachable(why) ==> !why@.contains('\n')
}

/// Whether a text is made of exactly two lines: it holds one line feed, with
/// something before it and something after it.
pub open spec fn is_two_lines(text: Seq<char>) -> bool {
    exists|at: int|
        0 < at < text.len() - 1 && #[trigger] text[at] == '\n' && forall|i: int|
            0 <= i < text.len() && i != at ==> text[i] != '\n'
}

/// Two texts without a line feed make a text without a line feed.
pub proof fn lemma_joined_on_one_line(a: Seq<char>, b: Seq<char>)
    requires
        !a.contains('\n'),
        !b.contains('\n'),
    ensures
        !(a + b).contains('\n'),
{
    if (a + b).contains('\n') {
        let i = choose|i: int| 0 <= i < (a + b).len() && (a + b)[i] == '\n';
        if i < a.len() {
            assert(a[i] == '\n');
        } else {
            assert(b[i - a.len()] == '\n');
        }
    }
}

/// Two texts that each stand on one line and hold something make, with a line
/// feed between them, a text of exactly two lines.
pub proof fn lemma_two_lines(first: Seq<char>, second: Seq<char>)
    requires
        first.len() > 0,
        second.len() > 0,
        !first.contains('\n'),
        !second.contains('\n'),
    ensures
        is_two_lines(first + seq!['\n'] + second),
{
    let text = first + seq!['\n'] + second;
    let at = first.len() as int;
    assert(text[at] == '\n');
    assert forall|i: int| 0 <= i < text.len() && i != at implies text[i] != '\n' by {
        if i < at {
            assert(first[i] == text[i]);
            assert(first.contains(first[i]));
        } else {
            assert(second[i - at - 1] == text[i]);
            assert(second.contains(second[i - at - 1]));
        }
    }
}

/// Says whether a probe found its service up.
pub fn probe_is_up(probe: &Probe) -> (r: bool)
    ensures
        r == is_up(*probe),
{
    match probe {
        Probe::Answered(status) => status.is_success(),
        Probe::Unreachable(_) => false,
    }
}

/// Says how the model server that answered is, from whether its status
/// stands for success and the line that shows the status.
pub fn ollama_answered(success: bool, line: &str) -> (r: String)
    ensures
        r@ == ollama_answer(success, line@),
        r@.len() > 0,
        !line@.contains('\n') ==> !r@.contains('\n'),
{
    proof {
        reveal_strlit("Ollama opérationnel");
        reveal_strlit("Ollama répond avec le statut: ");
        if !line@.contains('\n') {
            lemma_joined_on_one_line("Ollama répond avec le statut: "@, line@);
        }
    }
    if success {
        "Ollama opérationnel".to_string()
    } else {
        join2("Ollama répond avec le statut: ", line)
    }
}

/// Says how the gateway that answered is, from whether its status stands for
/// success and the line that shows the status.
pub fn services_answered(success: bool, line: &str) -> (r: String)
    ensures
        r@ == services_answer(success, line@),
        r@.len() > 0,
        !line@.contains('\n') ==> !r@.contains('\n'),
{
    proof {
        reveal_strlit("Services opérationnels");
        reveal_strlit("Services répondent avec le statut: ");
        if !line@.contains('\n') {
            lemma_joined_on_one_line("Services répondent avec le statut: "@, line@);
        }
    }
    if success {
        "Services opérationnels".to_string()
    } else {
        join2("Services répondent avec le statut: ", line)
    }
}

/// Says how the model server is, from what came of probing it. It never
/// fails: a server that answers without success, or cannot be reached, is
/// reported as such. The text stands on one line where the probe does.
pub fn check_ollama_health(probe: &Probe) -> (r: Result<String, String>)
    ensures
        r matches Ok(text) && text@ == ollama_status(*probe) && text@.len() > 0 && (on_one_line(*probe)
            ==> !text@.contains('\n')),
{
    match probe {
        Probe::Answered(status) => Ok(ollama_answered(status.is_success(), status.line().as_str())),
        Probe::Unreachable(why) => {
            proof {
                reveal_strlit("Ollama non disponible: ");
                if !why@.contains('\n') {
                    lemma_joined_on_one_line("Ollama non disponible: "@, why@);
                }
            }
            Ok(join2("Ollama non disponible: ", why.as_str()))
        },
    }
}

/// Says how the gateway is, from what came of probing it. It never fails: a
/// gateway that answers without success, or cannot be reached, is reported as
/// such. The text stands on one line.
pub fn check_service_health(probe: &Probe) -> (r: Result<String, String>)
    ensures
        r matches Ok(text) && text@ == services_status(*probe) && text@.len() > 0 && !text@.contains(
            '\n',
        ),
{
    match probe {
        Probe::Answered(status) => Ok(services_answered(status.is_success(), status.line().as_str())),
        Probe::Unreachable(_) => {
            proof {
                reveal_strlit("Services non disponibles");
            }
            Ok("Services non disponibles".to_string())
        },
    }
}

/// Reports on both services, from what came of probing each: the line on the
/// model server, a line feed, and the line on the gateway. It never fails,
/// whatever the probes found, and the report has exactly two lines where the
/// reason why the model server could not be reached stands on one line.
pub fn check_all_services_health(ollama: &Probe, services: &Probe) -> (r: Result<String, String>)
    ensures
        r matches Ok(text) && text@ == ollama_line(*ollama) + "\n"@ + services_line(*services) && (
        on_one_line(*ollama) ==> is_two_lines(text@)),
{
    let up = probe_is_up(ollama);
    let first = match check_ollama_health(ollama) {
        Ok(text) => join2(if up { "🤖 Ollama: " } else { "❌ Ollama: " }, text.as_str()),
        Err(text) => join2("❌ Ollama: ", text.as_str()),
    };
    let second = match check_service_health(services) {
        Ok(text) => join2("🔧 Services: ", text.as_str()),
        Err(text) => join2("❌ Services: ", text.as_str()),
    };
    proof {
        reveal_strlit("🤖 Ollama: ");
        reveal_strlit("❌ Ollama: ");
        reveal_strlit("🔧 Services: ");
        reveal_strlit("\n");
        assert("\n"@ == seq!['\n']);
        lemma_joined_on_one_line("🔧 Services: "@, services_status(*services));
        if on_one_line(*ollama) {
            lemma_joined_on_one_line("🤖 Ollama: "@, ollama_status(*ollama));
            lemma_joined_on_one_line("❌ Ollama: "@, ollama_status(*ollama));
            lemma_two_lines(first@, second@);
        }
    }
    Ok(join3(first.as_str(), "\n", second.as_str()))
}

} // verus!
