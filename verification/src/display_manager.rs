//! The display manager's systemd service: which of the known ones is active.

use vstd::prelude::*;
use vstd::string::*;
use crate::text::{same_text, trim};

verus! {

/// The services that are asked, in their order. The last one is the alias under which any display
/// manager is installed.
pub open spec fn services() -> Seq<Seq<char>> {
    seq!["gdm"@, "gdm3"@, "sddm"@, "lightdm"@, "lxdm"@, "xdm"@, "display-manager"@]
}

/// A step of the search for the active display manager.
pub enum ServiceStep {
    /// Ask for the state of this service, told by its position.
    Query(usize),
    /// The active service, if there is one.
    Settled(Option<String>),
}

/// A step of the search for the active display manager, over plain sequences.
pub enum ServiceView {
    Query(int),
    Settled(Option<Seq<char>>),
}

impl View for ServiceStep {
    type V = ServiceView;

    open spec fn view(&self) -> ServiceView {
        match self {
            ServiceStep::Query(i) => ServiceView::Query(*i as int),
            ServiceStep::Settled(s) => ServiceView::Settled(crate::text::string_view(*s)),
        }
    }
}

/// Whether a service is active, given what was answered, if the question could be asked.
pub open spec fn is_active(output: Option<Seq<char>>) -> bool {
    match output {
        Some(text) => crate::text::trimmed(text) == "active"@,
        None => false,
    }
}

/// The step after an answer: the service, if it is active, else the next question.
pub open spec fn service_queried(i: int, output: Option<Seq<char>>) -> ServiceView {
    if is_active(output) && 0 <= i < services().len() {
        ServiceView::Settled(Some(services()[i]))
    } else if i + 1 < services().len() {
        ServiceView::Query(i + 1)
    } else {
        ServiceView::Settled(None)
    }
}

/// The step after a step, given what was answered.
pub open spec fn service_next(step: ServiceView, output: Option<Seq<char>>) -> ServiceView {
    match step {
        ServiceView::Query(i) => service_queried(i, output),
        ServiceView::Settled(_) => step,
    }
}

/// The service with the given position, if there is one.
pub fn service(i: usize) -> (r: Option<&'static str>)
    ensures
        crate::text::text_view(r) == (if i < services().len() {
            Some(services()[i as int])
        } else {
            None
        }),
{
    match i {
        0 => Some("gdm"),
        1 => Some("gdm3"),
        2 => Some("sddm"),
        3 => Some("lightdm"),
        4 => Some("lxdm"),
        5 => Some("xdm"),
        6 => Some("display-manager"),
        _ => None,
    }
}

/// The command that asks for the state of a service.
pub fn service_query_command(name: &str) -> (r: String)
    ensures
        r@ == "systemctl is-active "@ + name@,
{
    let mut r = "systemctl is-active ".to_owned();
    r.append(name);
    r
}

/// Begins the search for the active display manager.
pub fn detect_display_manager_service() -> (r: ServiceStep)
    ensures
        r@ == ServiceView::Query(0),
{
    ServiceStep::Query(0)
}

/// Goes on after an answer. There is none where the command failed.
pub fn after_service_step(step: ServiceStep, output: Option<&str>) -> (r: ServiceStep)
    ensures
        r@ == service_next(step@, crate::text::text_view(output)),
{
    match step {
        ServiceStep::Query(i) => {
            if let Some(text) = output {
                if same_text(trim(text).as_str(), "active") {
                    if let Some(name) = service(i) {
                        return ServiceStep::Settled(Some(name.to_owned()));
                    }
                }
            }
            if i < 6 {
                ServiceStep::Query(i + 1)
            } else {
                ServiceStep::Settled(None)
            }
        },
        step => step,
    }
}

/// The first active service from a given one on.
pub open spec fn active_from(output: spec_fn(int) -> Option<Seq<char>>, i: int) -> Option<Seq<char>>
    decreases services().len() - i,
{
    if i >= services().len() {
        None
    } else if is_active(output(i)) {
        Some(services()[i])
    } else {
        active_from(output, i + 1)
    }
}

/// The step of the search that is reached after `n` more, given what each question is answered.
pub open spec fn service_step_after(
    output: spec_fn(int) -> Option<Seq<char>>,
    step: ServiceView,
    n: nat,
) -> ServiceView
    decreases n,
{
    if n == 0 {
        step
    } else {
        match step {
            ServiceView::Query(i) => service_step_after(
                output,
                service_next(step, output(i)),
                (n - 1) as nat,
            ),
            ServiceView::Settled(_) => step,
        }
    }
}

proof fn lemma_service_search(output: spec_fn(int) -> Option<Seq<char>>, i: int)
    requires
        0 <= i < services().len(),
    ensures
        service_step_after(output, ServiceView::Query(i), (services().len() - i) as nat)
            == ServiceView::Settled(active_from(output, i)),
    decreases services().len() - i,
{
    let rest = (services().len() - i - 1) as nat;
    let step = service_queried(i, output(i));
    if !is_active(output(i)) && i + 1 < services().len() {
        lemma_service_search(output, i + 1);
    } else {
        assert(service_step_after(output, step, rest) == step);
        if !is_active(output(i)) {
            assert(active_from(output, i + 1) is None);
        }
    }
}

/// The search gives the first known service that is active; none exactly if none of them is.
pub proof fn law_first_active_service(output: spec_fn(int) -> Option<Seq<char>>)
    ensures
        service_step_after(output, ServiceView::Query(0), services().len()) == ServiceView::Settled(
            active_from(output, 0),
        ),
        active_from(output, 0) is None <==> forall|i: int|
            0 <= i < services().len() ==> !is_active(#[trigger] output(i)),
{
    lemma_service_search(output, 0);
    lemma_active_from(output, 0);
}

proof fn lemma_active_from(output: spec_fn(int) -> Option<Seq<char>>, i: int)
    requires
        0 <= i <= services().len(),
    ensures
        active_from(output, i) is None <==> forall|j: int|
            i <= j < services().len() ==> !is_active(#[trigger] output(j)),
    decreases services().len() - i,
{
    if i < services().len() {
        lemma_active_from(output, i + 1);
    }
}

/// The known services stand in this order, and the alias comes last.
pub proof fn law_known_services()
    ensures
        services().len() == 7,
        services()[0] == "gdm"@,
        services()[1] == "gdm3"@,
        services()[2] == "sddm"@,
        services()[3] == "lightdm"@,
        services()[4] == "lxdm"@,
        services()[5] == "xdm"@,
        services()[6] == "display-manager"@,
{
}

/// The service that was asked for is taken exactly if the answer is, without the white space around
/// it, the word `active`. With any other answer, or none, the next service is asked for, and after
/// the last one there is none.
pub proof fn law_only_an_active_service_is_taken(i: usize, output: Option<&str>, r: ServiceStep)
    requires
        i < 7,
        call_ensures(after_service_step, (ServiceStep::Query(i), output), r),
    ensures
        ({
            let active = match output {
                Some(t) => crate::text::trimmed(t@) == "active"@,
                None => false,
            };
            &&& active <==> (r matches ServiceStep::Settled(Some(_)))
            &&& r matches ServiceStep::Settled(Some(name)) ==> name@ == services()[i as int]
            &&& !active && i < 6 ==> r == ServiceStep::Query((i + 1) as usize)
            &&& !active && i == 6 ==> r == ServiceStep::Settled(None)
        }),
{
}

/// The search ends with the first service whose answer is the word `active` but for white space
/// around it, and with none exactly if no answer is.
pub proof fn law_search_ends_with_the_active_service(
    output: spec_fn(int) -> Option<Seq<char>>,
    k: int,
)
    requires
        0 <= k < 7,
        forall|i: int|
            0 <= i < k ==> ((#[trigger] output(i)) matches Some(t) ==> crate::text::trimmed(t)
                != "active"@),
    ensures
        (output(k) matches Some(t) && crate::text::trimmed(t) == "active"@) ==> service_step_after(
            output,
            ServiceView::Query(0),
            7,
        ) == ServiceView::Settled(Some(services()[k])),
        k == 6 && !(output(k) matches Some(t) && crate::text::trimmed(t) == "active"@)
            ==> service_step_after(output, ServiceView::Query(0), 7) == ServiceView::Settled(None),
{
    lemma_service_search(output, 0);
    lemma_passed_services(output, 0, k);
    if !(output(k) matches Some(t) && crate::text::trimmed(t) == "active"@) {
        assert(active_from(output, k) == active_from(output, k + 1));
    }
}

proof fn lemma_passed_services(output: spec_fn(int) -> Option<Seq<char>>, j: int, k: int)
    requires
        0 <= j <= k < 7,
        forall|i: int|
            0 <= i < k ==> ((#[trigger] output(i)) matches Some(t) ==> crate::text::trimmed(t)
                != "active"@),
    ensures
        active_from(output, j) == active_from(output, k),
    decreases k - j,
{
    if j < k {
        assert(!is_active(output(j)));
        lemma_passed_services(output, j + 1, k);
    }
}

/// The search begins with the first service, each is asked for by its name, and the names are those
/// of the known services.
pub proof fn law_services_are_asked_by_name(
    first: ServiceStep,
    i: usize,
    known: Option<&str>,
    name: &str,
    command: String,
)
    requires
        call_ensures(detect_display_manager_service, (), first),
        call_ensures(service, (i,), known),
        call_ensures(service_query_command, (name,), command),
    ensures
        first matches ServiceStep::Query(j) && j == 0,
        i < 7 ==> (known matches Some(n) && n@ == services()[i as int]),
        i >= 7 ==> known is None,
        command@ == "systemctl is-active "@ + name@,
{
}

} // verus!
