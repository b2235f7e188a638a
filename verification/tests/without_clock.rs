use anchor_lang::prelude::Pubkey;
use message_record::{
    create_message, update_message, Allocator, CreateMessage, Message, MessageError, Signer,
    UpdateMessage,
};

fn signer(byte: u8, is_signer: bool, lamports: u64) -> Signer {
    Signer { key: Pubkey::new_from_array([byte; 32]), is_signer, lamports }
}

fn record(byte: u8, timestamp: i64, content: &str) -> Message {
    Message { author: Pubkey::new_from_array([byte; 32]), timestamp, content: content.to_string() }
}

#[test]
fn create_without_a_clock_changes_nothing() {
    let mut ctx = CreateMessage {
        message: None,
        author: signer(1, true, 5_000),
        system_program: Allocator { rent: 3_000 },
    };
    assert_eq!(create_message(&mut ctx, "hello".to_string()), Err(MessageError::ClockUnavailable));
    assert_eq!(ctx.message, None);
    assert_eq!(ctx.author, signer(1, true, 5_000));
}

#[test]
fn update_without_a_clock_changes_nothing() {
    let mut ctx = UpdateMessage { message: Some(record(1, 10, "hello")), author: signer(1, true, 0) };
    assert_eq!(update_message(&mut ctx, "world".to_string()), Err(MessageError::ClockUnavailable));
    assert_eq!(ctx.message, Some(record(1, 10, "hello")));
}

#[test]
fn create_is_refused_before_the_clock_is_asked() {
    let mut unsigned = CreateMessage {
        message: None,
        author: signer(1, false, 5_000),
        system_program: Allocator { rent: 3_000 },
    };
    assert_eq!(
        create_message(&mut unsigned, "hello".to_string()),
        Err(MessageError::AuthenticationError)
    );
    let mut filled = CreateMessage {
        message: Some(record(1, 10, "hello")),
        author: signer(1, true, 5_000),
        system_program: Allocator { rent: 3_000 },
    };
    assert_eq!(
        create_message(&mut filled, "again".to_string()),
        Err(MessageError::AllocationError)
    );
    assert_eq!(filled.message, Some(record(1, 10, "hello")));
    let mut long = CreateMessage {
        message: None,
        author: signer(1, true, 5_000),
        system_program: Allocator { rent: 3_000 },
    };
    assert_eq!(create_message(&mut long, "a".repeat(949)), Err(MessageError::CapacityError));
    assert_eq!(long.message, None);
}

#[test]
fn update_is_refused_before_the_clock_is_asked() {
    let mut unsigned =
        UpdateMessage { message: Some(record(1, 10, "hello")), author: signer(2, false, 0) };
    assert_eq!(
        update_message(&mut unsigned, "x".to_string()),
        Err(MessageError::AuthenticationError)
    );
    assert_eq!(unsigned.message, Some(record(1, 10, "hello")));
    let mut empty = UpdateMessage { message: None, author: signer(1, true, 0) };
    assert_eq!(update_message(&mut empty, "x".to_string()), Err(MessageError::NotFoundError));
    let mut long = UpdateMessage { message: Some(record(1, 10, "hello")), author: signer(1, true, 0) };
    assert_eq!(update_message(&mut long, "b".repeat(949)), Err(MessageError::CapacityError));
    assert_eq!(long.message, Some(record(1, 10, "hello")));
}
