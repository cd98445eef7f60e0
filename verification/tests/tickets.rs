use anchor_programs::pubkey::Pubkey;
use anchor_programs::ticketing_system::{initialize, Initialize, Ticket, TicketingSystem};

fn blank() -> Ticket {
    Ticket { owner: Pubkey { bytes: [0; 32] }, id: 0, available: false, idx: 0 }
}

fn ctx() -> Initialize {
    Initialize {
        ticketing_system: TicketingSystem { tickets: [blank(); 3] },
        ticketing_system_in_use: false,
        ticketing_system_key: Pubkey { bytes: [7; 32] },
        user: Pubkey { bytes: [1; 32] },
        user_is_signer: true,
        system_program: Pubkey { bytes: [0; 32] },
    }
}

#[test]
fn initialize_fills_given_places_in_order() {
    let mut c = ctx();
    initialize(&mut c, vec![11, 22]).unwrap();
    let t = c.ticketing_system.tickets;
    assert_eq!((t[0].id, t[0].idx, t[0].available), (11, 0, true));
    assert_eq!((t[1].id, t[1].idx, t[1].available), (22, 1, true));
    assert_eq!(t[0].owner, Pubkey { bytes: [7; 32] });
    assert_eq!((t[2].id, t[2].available), (0, false));
}

#[test]
fn initialize_with_all_three() {
    let mut c = ctx();
    initialize(&mut c, vec![5, 6, 7]).unwrap();
    assert_eq!(c.ticketing_system.tickets.map(|t| t.id), [5, 6, 7]);
    assert_eq!(c.ticketing_system.tickets.map(|t| t.idx), [0, 1, 2]);
}

#[test]
fn initialize_with_none() {
    let mut c = ctx();
    initialize(&mut c, vec![]).unwrap();
    assert!(c.ticketing_system.tickets.iter().all(|t| !t.available));
}

#[test]
fn ticket_registry_needs_the_payer_signature() {
    let mut c = ctx();
    c.user_is_signer = false;
    assert!(initialize(&mut c, vec![1]).is_err());
    assert!(c.ticketing_system.tickets.iter().all(|t| !t.available));
}

#[test]
fn ticket_registry_is_created_once() {
    let mut c = ctx();
    initialize(&mut c, vec![1]).unwrap();
    assert!(c.ticketing_system_in_use);
    assert!(initialize(&mut c, vec![9, 9]).is_err());
    assert_eq!(c.ticketing_system.tickets[0].id, 1);
}
