//! Support tickets raised from user queries.

use vstd::prelude::*;
use crate::models::TicketPriority;
use crate::clock::{now_nanos, today_compact};
use crate::text::{chars_of, contains_any, contains_any_spec, decimal, decimal_string, lowercase_chars, lowercase_of, string_from_chars, views_of};

verus! {

/// The priority of a ticket by the words its lowercased query holds: outages
/// and blue screens are high, slowness and printing problems medium, the
/// rest low.
pub open spec fn ticket_priority_spec(query: Seq<char>) -> TicketPriority {
    let l = lowercase_of(query);
    if contains_any_spec(l, seq!["pantalla azul"@, "bsod"@, "sin internet"@, "bloqueado"@, "caido"@]) {
        TicketPriority::Alta
    } else if contains_any_spec(l, seq!["lento"@, "spooler"@, "impresora"@, "driver"@]) {
        TicketPriority::Media
    } else {
        TicketPriority::Baja
    }
}

/// The priority of a ticket for a query.
pub fn infer_ticket_priority(query_text: &str) -> (r: TicketPriority)
    ensures
        r == ticket_priority_spec(query_text@),
{
    let lowercase = lowercase_chars(query_text);
    let high: [&str; 5] = ["pantalla azul", "bsod", "sin internet", "bloqueado", "caido"];
    assert(views_of(high@) =~= seq!["pantalla azul"@, "bsod"@, "sin internet"@, "bloqueado"@, "caido"@]);
    if contains_any(&lowercase, &high) {
        return TicketPriority::Alta;
    }
    let medium: [&str; 4] = ["lento", "spooler", "impresora", "driver"];
    assert(views_of(medium@) =~= seq!["lento"@, "spooler"@, "impresora"@, "driver"@]);
    if contains_any(&lowercase, &medium) {
        return TicketPriority::Media;
    }
    TicketPriority::Baja
}


/// A stored support ticket.
#[derive(Debug, Clone)]
pub struct SupportTicket {
    pub id: String,
    pub ticket_code: String,
    pub title: String,
    pub description: String,
    pub priority: String,
    pub status: String,
    pub specialty: String,
    pub customer_id: String,
    pub telemetry_json: String,
    pub created_at: String,
    pub updated_at: String,
}

/// What raising a ticket tells the caller.
#[derive(Debug, Clone)]
pub struct TicketCreationResult {
    pub ticket_code: String,
    pub priority: TicketPriority,
    pub description: String,
    pub customer_message: String,
}

/// The name a priority is stored and shown with.
pub open spec fn priority_name(p: TicketPriority) -> Seq<char> {
    match p {
        TicketPriority::Alta => "Alta"@,
        TicketPriority::Media => "Media"@,
        TicketPriority::Baja => "Baja"@,
    }
}

fn priority_name_str(p: TicketPriority) -> (r: &'static str)
    ensures
        r@ == priority_name(p),
{
    match p {
        TicketPriority::Alta => "Alta",
        TicketPriority::Media => "Media",
        TicketPriority::Baja => "Baja",
    }
}

/// The four digits drawn from a clock reading: its magnitude modulo 9000,
/// plus 1000 (`fallback` when the clock gave no reading).
pub open spec fn code_digits(nanos: Option<i64>, fallback: int) -> nat {
    let n = match nanos { Some(v) => v as int, None => fallback };
    let m = if n < 0 { -n } else { n };
    ((m % 9000) + 1000) as nat
}

/// The four digits drawn from a clock reading.
pub(crate) fn digits_from_clock(nanos: Option<i64>, fallback: i64) -> (r: usize)
    requires
        fallback >= 0,
    ensures
        r == code_digits(nanos, fallback as int),
        1000 <= r < 10000,
{
    let n = match nanos {
        Some(v) => v,
        None => fallback,
    };
    let m: u64 = if n >= 0 { n as u64 } else { (-(n + 1)) as u64 + 1 };
    assert(m as int == (if (n as int) < 0 { -(n as int) } else { n as int }));
    let d: u64 = m % 9000 + 1000;
    d as usize
}

/// The code of a ticket: `TK-`, the date, `-` and four digits drawn from
/// the clock.
pub open spec fn ticket_code_spec(date: Seq<char>, nanos: Option<i64>) -> Seq<char> {
    "TK-"@ + date + "-"@ + decimal(code_digits(nanos, 12345))
}

/// The code of a ticket raised on `date` at the clock reading `nanos`.
pub fn ticket_code_from(date: &str, nanos: Option<i64>) -> (r: String)
    ensures
        r@ == ticket_code_spec(date@, nanos),
{
    let mut out = String::from_str("TK-");
    out.append(date);
    out.append("-");
    let d = decimal_string(digits_from_clock(nanos, 12345));
    out.append(d.as_str());
    out
}

/// A fresh ticket code from the clock: today's date and four digits drawn
/// from the current instant.
pub fn rand_ticket_code() -> (r: String)
    ensures
        exists|date: Seq<char>, nanos: Option<i64>| r@ == ticket_code_spec(date, nanos),
{
    let date = today_compact();
    let nanos = now_nanos();
    ticket_code_from(date.as_str(), nanos)
}

/// The title of a ticket: `Incidencia: ` and the first 50 characters of
/// the query.
pub open spec fn ticket_title_spec(query: Seq<char>) -> Seq<char> {
    "Incidencia: "@ + if query.len() > 50 { query.take(50) } else { query }
}

/// The description of a ticket.
pub open spec fn ticket_description_spec(query: Seq<char>, specialty: Seq<char>, telemetry: Seq<char>) -> Seq<char> {
    "Consulta no resuelta por RAG/Web: "@ + query + "\nEspecialidad: "@ + specialty + "\nTelemetría: "@ + telemetry
}

/// The message that tells the customer a ticket was raised.
pub open spec fn customer_message_spec(code: Seq<char>, p: TicketPriority) -> Seq<char> {
    "Se ha generado el ticket de soporte #"@ + code + " con prioridad "@ + priority_name(p)
        + ". Un especialista técnico revisará tu caso."@
}

/// A new open ticket for a query the assistant could not resolve, to be
/// stored as given, and what the caller is told about it. Its priority
/// follows from the query.
pub fn new_support_ticket(
    id: &str,
    ticket_code: &str,
    query_text: &str,
    specialty: &str,
    telemetry_json: &str,
    now: &str,
) -> (r: (SupportTicket, TicketCreationResult))
    ensures
        r.0.id@ == id@,
        r.0.ticket_code@ == ticket_code@,
        r.0.title@ == ticket_title_spec(query_text@),
        r.0.description@ == ticket_description_spec(query_text@, specialty@, telemetry_json@),
        r.0.priority@ == priority_name(ticket_priority_spec(query_text@)),
        r.0.status@ == "open"@,
        r.0.specialty@ == specialty@,
        r.0.customer_id@ == "local_user"@,
        r.0.telemetry_json@ == telemetry_json@,
        r.0.created_at@ == now@,
        r.0.updated_at@ == now@,
        r.1.ticket_code@ == ticket_code@,
        r.1.priority == ticket_priority_spec(query_text@),
        r.1.description@ == r.0.description@,
        r.1.customer_message@ == customer_message_spec(ticket_code@, ticket_priority_spec(query_text@)),
{
    let priority = infer_ticket_priority(query_text);
    let cs = chars_of(query_text);
    let mut head: Vec<char> = Vec::new();
    let mut i: usize = 0;
    while i < cs.len() && i < 50
        invariant
            i <= cs.len(),
            i <= 50,
            head@ == cs@.take(i as int),
        decreases cs.len() - i,
    {
        head.push(cs[i]);
        assert(head@ =~= cs@.take(i as int + 1));
        i += 1;
    }
    proof {
        if cs@.len() <= 50 {
            assert(head@ =~= cs@);
        }
    }
    let mut title = String::from_str("Incidencia: ");
    let h = string_from_chars(&head);
    title.append(h.as_str());

    let mut description = String::from_str("Consulta no resuelta por RAG/Web: ");
    description.append(query_text);
    description.append("\nEspecialidad: ");
    description.append(specialty);
    description.append("\nTelemetría: ");
    description.append(telemetry_json);

    let mut message = String::from_str("Se ha generado el ticket de soporte #");
    message.append(ticket_code);
    message.append(" con prioridad ");
    message.append(priority_name_str(priority));
    message.append(". Un especialista técnico revisará tu caso.");

    let ticket = SupportTicket {
        id: String::from_str(id),
        ticket_code: String::from_str(ticket_code),
        title,
        description: description.clone(),
        priority: String::from_str(priority_name_str(priority)),
        status: String::from_str("open"),
        specialty: String::from_str(specialty),
        customer_id: String::from_str("local_user"),
        telemetry_json: String::from_str(telemetry_json),
        created_at: String::from_str(now),
        updated_at: String::from_str(now),
    };
    let result = TicketCreationResult {
        ticket_code: String::from_str(ticket_code),
        priority,
        description,
        customer_message: message,
    };
    (ticket, result)
}

} // verus!
