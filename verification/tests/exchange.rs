use ale::{
    ALEInterface, ALEState, Ale, AleState, CText, Call, CodeSet, Encoding, Exchange, Goal,
    Origin, Outcome, PixelFormat, Reply, Stage, Step, Violation,
};

fn snapshot_of(addr: usize, origin: Origin) -> AleState {
    let engine = ALEInterface { addr: 0x1000 };
    let call = match origin {
        Origin::Environment => Call::CloneState { engine },
        Origin::System => Call::CloneSystemState { engine },
        Origin::Decoded => Call::DecodeState { serialized: Vec::new(), len: 0 },
    };
    AleState::from_reply(&call, Reply::State(ALEState { addr })).unwrap()
}

fn engine() -> ALEInterface {
    ALEInterface { addr: 0x1000 }
}

fn fresh() -> Ale {
    Ale::new(engine())
}

fn loaded() -> Ale {
    let mut ale = fresh();
    let _ = ale.load_rom_file(CText::new(b"breakout.bin").unwrap());
    ale
}

#[test]
fn act_lists_the_legal_actions_first() {
    let ale = loaded();
    let (mut exchange, step) = Exchange::start(&ale, Goal::Act { action: 3 });
    assert_eq!(step, Step::Ask(Call::GetLegalActionSize { engine: engine() }));
    assert_eq!(exchange.stage(), Stage::Size);
    assert_eq!(exchange.goal(), Goal::Act { action: 3 });

    let step = exchange.next(Reply::Int(4));
    assert_eq!(step, Step::Ask(Call::GetLegalActionSet { engine: engine(), len: 4 }));
    assert_eq!(exchange.stage(), Stage::Codes { len: 4 });

    let step = exchange.next(Reply::Codes(vec![0, 1, 3, 4]));
    assert_eq!(step, Step::Ask(Call::Act { engine: engine(), action: 3 }));
    assert_eq!(exchange.stage(), Stage::Effect);

    let step = exchange.next(Reply::Int(7));
    assert_eq!(step, Step::Finish(Outcome::Reward(7)));
    assert_eq!(exchange.stage(), Stage::Over);
}

#[test]
fn illegal_action_ends_the_exchange_before_the_step() {
    let ale = loaded();
    let (mut exchange, _) = Exchange::start(&ale, Goal::Act { action: 2 });
    let _ = exchange.next(Reply::Int(4));
    let step = exchange.next(Reply::Codes(vec![0, 1, 3, 4]));
    assert_eq!(step, Step::Refuse(Violation::IllegalAction { action: 2 }));
    assert_eq!(exchange.stage(), Stage::Over);
    // Nothing revives it, not even the answer it was waiting for.
    assert_eq!(exchange.next(Reply::Int(0)), Step::Refuse(Violation::UnexpectedReply));
    assert_eq!(exchange.next(Reply::Codes(vec![2])), Step::Refuse(Violation::UnexpectedReply));
}

#[test]
fn action_is_looked_up_in_an_empty_listing() {
    let ale = loaded();
    let (mut exchange, _) = Exchange::start(&ale, Goal::Act { action: 0 });
    assert_eq!(
        exchange.next(Reply::Int(0)),
        Step::Ask(Call::GetLegalActionSet { engine: engine(), len: 0 })
    );
    assert_eq!(
        exchange.next(Reply::Codes(Vec::new())),
        Step::Refuse(Violation::IllegalAction { action: 0 })
    );
}

#[test]
fn set_mode_lists_the_modes_first() {
    let ale = loaded();
    let (mut exchange, step) = Exchange::start(&ale, Goal::SetMode { mode: 4 });
    assert_eq!(step, Step::Ask(Call::GetAvailableModesSize { engine: engine() }));
    assert_eq!(
        exchange.next(Reply::Int(2)),
        Step::Ask(Call::GetAvailableModes { engine: engine(), len: 2 })
    );
    assert_eq!(
        exchange.next(Reply::Codes(vec![0, 4])),
        Step::Ask(Call::SetMode { engine: engine(), mode: 4 })
    );
    assert_eq!(exchange.next(Reply::Done), Step::Finish(Outcome::Done));
}

#[test]
fn unknown_mode_is_refused() {
    let ale = loaded();
    let (mut exchange, _) = Exchange::start(&ale, Goal::SetMode { mode: 1 });
    let _ = exchange.next(Reply::Int(2));
    assert_eq!(
        exchange.next(Reply::Codes(vec![0, 4])),
        Step::Refuse(Violation::InvalidMode { mode: 1 })
    );
}

#[test]
fn set_difficulty_lists_the_difficulties_first() {
    let ale = loaded();
    let (mut exchange, step) = Exchange::start(&ale, Goal::SetDifficulty { difficulty: 1 });
    assert_eq!(step, Step::Ask(Call::GetAvailableDifficultiesSize { engine: engine() }));
    assert_eq!(
        exchange.next(Reply::Int(2)),
        Step::Ask(Call::GetAvailableDifficulties { engine: engine(), len: 2 })
    );
    assert_eq!(
        exchange.next(Reply::Codes(vec![0, 1])),
        Step::Ask(Call::SetDifficulty { engine: engine(), difficulty: 1 })
    );
    assert_eq!(exchange.next(Reply::Done), Step::Finish(Outcome::Done));
}

#[test]
fn unknown_difficulty_is_refused() {
    let ale = loaded();
    let (mut exchange, _) = Exchange::start(&ale, Goal::SetDifficulty { difficulty: 3 });
    let _ = exchange.next(Reply::Int(2));
    assert_eq!(
        exchange.next(Reply::Codes(vec![0, 1])),
        Step::Refuse(Violation::InvalidDifficulty { difficulty: 3 })
    );
}

#[test]
fn each_set_is_counted_and_listed_by_its_own_calls() {
    let ale = loaded();
    let sets = [
        (
            CodeSet::Modes,
            Call::GetAvailableModesSize { engine: engine() },
            Call::GetAvailableModes { engine: engine(), len: 2 },
        ),
        (
            CodeSet::Difficulties,
            Call::GetAvailableDifficultiesSize { engine: engine() },
            Call::GetAvailableDifficulties { engine: engine(), len: 2 },
        ),
        (
            CodeSet::LegalActions,
            Call::GetLegalActionSize { engine: engine() },
            Call::GetLegalActionSet { engine: engine(), len: 2 },
        ),
        (
            CodeSet::MinimalActions,
            Call::GetMinimalActionSize { engine: engine() },
            Call::GetMinimalActionSet { engine: engine(), len: 2 },
        ),
    ];
    for (set, count, list) in sets {
        let (mut exchange, step) = Exchange::start(&ale, Goal::Codes { set });
        assert_eq!(step, Step::Ask(count));
        assert_eq!(exchange.next(Reply::Int(2)), Step::Ask(list));
        assert_eq!(
            exchange.next(Reply::Codes(vec![5, 9])),
            Step::Finish(Outcome::Codes(vec![5, 9]))
        );
    }
}

#[test]
fn code_sets_need_a_rom() {
    let ale = fresh();
    for goal in [
        Goal::Codes { set: CodeSet::LegalActions },
        Goal::Act { action: 0 },
        Goal::SetMode { mode: 0 },
        Goal::SetDifficulty { difficulty: 0 },
    ] {
        let (exchange, step) = Exchange::start(&ale, goal);
        assert_eq!(step, Step::Refuse(Violation::RomNotLoaded));
        assert_eq!(exchange.stage(), Stage::Over);
    }
}

#[test]
fn sizes_need_no_rom() {
    let ale = fresh();
    let (mut exchange, step) = Exchange::start(&ale, Goal::RamSize);
    assert_eq!(step, Step::Ask(Call::GetRamSize { engine: engine() }));
    assert_eq!(exchange.next(Reply::Int(128)), Step::Finish(Outcome::Size(128)));

    let (mut exchange, step) = Exchange::start(&ale, Goal::ScreenWidth);
    assert_eq!(step, Step::Ask(Call::GetScreenWidth { engine: engine() }));
    assert_eq!(exchange.next(Reply::Int(160)), Step::Finish(Outcome::Size(160)));

    let (mut exchange, step) = Exchange::start(&ale, Goal::ScreenHeight);
    assert_eq!(step, Step::Ask(Call::GetScreenHeight { engine: engine() }));
    assert_eq!(exchange.next(Reply::Int(210)), Step::Finish(Outcome::Size(210)));
}

#[test]
fn released_handle_begins_nothing() {
    let mut ale = loaded();
    let _ = ale.release();
    for goal in [
        Goal::Codes { set: CodeSet::Modes },
        Goal::Act { action: 0 },
        Goal::SetMode { mode: 0 },
        Goal::SetDifficulty { difficulty: 0 },
        Goal::RamSize,
        Goal::ScreenWidth,
        Goal::ScreenHeight,
        Goal::Ram { buffer_len: 128 },
        Goal::Screen { buffer_len: 100800, format: PixelFormat::Rgb },
    ] {
        let (mut exchange, step) = Exchange::start(&ale, goal);
        assert_eq!(step, Step::Refuse(Violation::Released));
        assert_eq!(exchange.stage(), Stage::Over);
        assert_eq!(exchange.next(Reply::Int(1)), Step::Refuse(Violation::UnexpectedReply));
    }
}

#[test]
fn negative_size_ends_the_exchange() {
    let ale = loaded();
    for goal in [
        Goal::Codes { set: CodeSet::Modes },
        Goal::Act { action: 0 },
        Goal::RamSize,
        Goal::Ram { buffer_len: 128 },
        Goal::Screen { buffer_len: 16, format: PixelFormat::Grayscale },
    ] {
        let (mut exchange, _) = Exchange::start(&ale, goal);
        assert_eq!(
            exchange.next(Reply::Int(-1)),
            Step::Refuse(Violation::InvalidSize { reported: -1 })
        );
        assert_eq!(exchange.stage(), Stage::Over);
    }
}

#[test]
fn negative_height_ends_the_exchange() {
    let ale = loaded();
    let goal = Goal::Screen { buffer_len: 16, format: PixelFormat::Grayscale };
    let (mut exchange, _) = Exchange::start(&ale, goal);
    let _ = exchange.next(Reply::Int(4));
    assert_eq!(
        exchange.next(Reply::Int(-210)),
        Step::Refuse(Violation::InvalidSize { reported: -210 })
    );
}

#[test]
fn answer_of_the_wrong_kind_ends_the_exchange() {
    let ale = loaded();
    let (mut exchange, _) = Exchange::start(&ale, Goal::Act { action: 1 });
    assert_eq!(exchange.next(Reply::Flag(true)), Step::Refuse(Violation::UnexpectedReply));

    let (mut exchange, _) = Exchange::start(&ale, Goal::Act { action: 1 });
    let _ = exchange.next(Reply::Int(2));
    assert_eq!(exchange.next(Reply::Int(2)), Step::Refuse(Violation::UnexpectedReply));

    let (mut exchange, _) = Exchange::start(&ale, Goal::Act { action: 1 });
    let _ = exchange.next(Reply::Int(2));
    let _ = exchange.next(Reply::Codes(vec![0, 1]));
    assert_eq!(exchange.next(Reply::Done), Step::Refuse(Violation::UnexpectedReply));

    let (mut exchange, _) = Exchange::start(&ale, Goal::SetMode { mode: 0 });
    let _ = exchange.next(Reply::Int(1));
    let _ = exchange.next(Reply::Codes(vec![0]));
    assert_eq!(exchange.next(Reply::Int(0)), Step::Refuse(Violation::UnexpectedReply));

    let (mut exchange, _) = Exchange::start(&ale, Goal::Ram { buffer_len: 8 });
    let _ = exchange.next(Reply::Int(8));
    assert_eq!(
        exchange.next(Reply::Codes(vec![0; 8])),
        Step::Refuse(Violation::UnexpectedReply)
    );

    let (mut exchange, _) = Exchange::start(&ale, Goal::RamSize);
    assert_eq!(
        exchange.next(Reply::State(ALEState { addr: 8 })),
        Step::Refuse(Violation::UnexpectedReply)
    );
}

#[test]
fn listing_of_the_wrong_length_ends_the_exchange() {
    let ale = loaded();
    let (mut exchange, _) = Exchange::start(&ale, Goal::Act { action: 1 });
    let _ = exchange.next(Reply::Int(3));
    assert_eq!(
        exchange.next(Reply::Codes(vec![0, 1])),
        Step::Refuse(Violation::UnexpectedReply)
    );
}

#[test]
fn ram_goes_into_a_buffer_of_exactly_its_size() {
    let ale = loaded();
    let (mut exchange, step) = Exchange::start(&ale, Goal::Ram { buffer_len: 128 });
    assert_eq!(step, Step::Ask(Call::GetRamSize { engine: engine() }));
    assert_eq!(
        exchange.next(Reply::Int(128)),
        Step::Ask(Call::GetRam { engine: engine(), len: 128 })
    );
    assert_eq!(exchange.stage(), Stage::Bytes { len: 128 });
    let dump: Vec<u8> = (0..128).collect();
    assert_eq!(
        exchange.next(Reply::Bytes(dump.clone())),
        Step::Finish(Outcome::Bytes(dump))
    );
}

#[test]
fn ram_does_not_go_into_a_buffer_one_byte_short() {
    let ale = loaded();
    let (mut exchange, _) = Exchange::start(&ale, Goal::Ram { buffer_len: 127 });
    assert_eq!(
        exchange.next(Reply::Int(128)),
        Step::Refuse(Violation::BufferTooSmall { required: 128, got: 127 })
    );
    assert_eq!(exchange.stage(), Stage::Over);
}

#[test]
fn ram_dump_of_the_wrong_length_is_not_handed_out() {
    let ale = loaded();
    let (mut exchange, _) = Exchange::start(&ale, Goal::Ram { buffer_len: 200 });
    let _ = exchange.next(Reply::Int(128));
    assert_eq!(
        exchange.next(Reply::Bytes(vec![0; 129])),
        Step::Refuse(Violation::UnexpectedReply)
    );
    let (mut exchange, _) = Exchange::start(&ale, Goal::Ram { buffer_len: 200 });
    let _ = exchange.next(Reply::Int(128));
    assert_eq!(
        exchange.next(Reply::Bytes(vec![0; 127])),
        Step::Refuse(Violation::UnexpectedReply)
    );
}

#[test]
fn screen_is_measured_then_dumped() {
    let ale = loaded();
    let goal = Goal::Screen { buffer_len: 100800, format: PixelFormat::Rgb };
    let (mut exchange, step) = Exchange::start(&ale, goal);
    assert_eq!(step, Step::Ask(Call::GetScreenWidth { engine: engine() }));
    assert_eq!(
        exchange.next(Reply::Int(160)),
        Step::Ask(Call::GetScreenHeight { engine: engine() })
    );
    assert_eq!(exchange.stage(), Stage::Height { width: 160 });
    assert_eq!(
        exchange.next(Reply::Int(210)),
        Step::Ask(Call::GetScreenRgb { engine: engine(), len: 100800 })
    );
    assert_eq!(exchange.stage(), Stage::Bytes { len: 100800 });
    assert_eq!(
        exchange.next(Reply::Bytes(vec![7; 100800])),
        Step::Finish(Outcome::Bytes(vec![7; 100800]))
    );
}

#[test]
fn grayscale_screen_takes_a_third() {
    let ale = loaded();
    let goal = Goal::Screen { buffer_len: 33600, format: PixelFormat::Grayscale };
    let (mut exchange, _) = Exchange::start(&ale, goal);
    let _ = exchange.next(Reply::Int(160));
    assert_eq!(
        exchange.next(Reply::Int(210)),
        Step::Ask(Call::GetScreenGrayscale { engine: engine(), len: 33600 })
    );
}

#[test]
fn screen_does_not_go_into_a_buffer_one_byte_short() {
    let ale = loaded();
    let goal = Goal::Screen { buffer_len: 100799, format: PixelFormat::Rgb };
    let (mut exchange, _) = Exchange::start(&ale, goal);
    let _ = exchange.next(Reply::Int(160));
    assert_eq!(
        exchange.next(Reply::Int(210)),
        Step::Refuse(Violation::BufferTooSmall { required: 100800, got: 100799 })
    );
    let goal = Goal::Screen { buffer_len: 33599, format: PixelFormat::Grayscale };
    let (mut exchange, _) = Exchange::start(&ale, goal);
    let _ = exchange.next(Reply::Int(160));
    assert_eq!(
        exchange.next(Reply::Int(210)),
        Step::Refuse(Violation::BufferTooSmall { required: 33600, got: 33599 })
    );
}

#[test]
fn encoded_length_alone() {
    let snapshot = snapshot_of(0x2000, Origin::System);
    let (mut encoding, step) = Encoding::start(&snapshot, None);
    assert_eq!(step, Step::Ask(Call::EncodeStateLen { state: ALEState { addr: 0x2000 } }));
    assert_eq!(encoding.stage(), Stage::Size);
    assert_eq!(encoding.next(Reply::Int(141)), Step::Finish(Outcome::Size(141)));
    assert_eq!(encoding.stage(), Stage::Over);
    assert_eq!(encoding.next(Reply::Int(141)), Step::Refuse(Violation::UnexpectedReply));
}

#[test]
fn snapshot_is_measured_then_encoded() {
    let snapshot = snapshot_of(0x2000, Origin::Environment);
    let (mut encoding, step) = Encoding::start(&snapshot, Some(141));
    assert_eq!(step, Step::Ask(Call::EncodeStateLen { state: ALEState { addr: 0x2000 } }));
    assert_eq!(
        encoding.next(Reply::Int(141)),
        Step::Ask(Call::EncodeState { state: ALEState { addr: 0x2000 }, len: 141 })
    );
    assert_eq!(encoding.stage(), Stage::Bytes { len: 141 });
    assert_eq!(
        encoding.next(Reply::Bytes(vec![0; 141])),
        Step::Finish(Outcome::Bytes(vec![0; 141]))
    );
}

#[test]
fn snapshot_is_not_encoded_into_a_buffer_one_byte_short() {
    let snapshot = snapshot_of(0x2000, Origin::Environment);
    let (mut encoding, _) = Encoding::start(&snapshot, Some(140));
    assert_eq!(
        encoding.next(Reply::Int(141)),
        Step::Refuse(Violation::BufferTooSmall { required: 141, got: 140 })
    );
    assert_eq!(encoding.stage(), Stage::Over);
}

#[test]
fn encoding_refuses_what_does_not_fit() {
    let snapshot = snapshot_of(0x2000, Origin::Environment);
    let (mut encoding, _) = Encoding::start(&snapshot, Some(200));
    assert_eq!(
        encoding.next(Reply::Int(-5)),
        Step::Refuse(Violation::InvalidSize { reported: -5 })
    );
    let (mut encoding, _) = Encoding::start(&snapshot, Some(200));
    assert_eq!(encoding.next(Reply::Done), Step::Refuse(Violation::UnexpectedReply));
    let (mut encoding, _) = Encoding::start(&snapshot, Some(200));
    let _ = encoding.next(Reply::Int(141));
    assert_eq!(
        encoding.next(Reply::Bytes(vec![0; 140])),
        Step::Refuse(Violation::UnexpectedReply)
    );
    let (mut encoding, _) = Encoding::start(&snapshot, Some(200));
    let _ = encoding.next(Reply::Int(141));
    assert_eq!(encoding.next(Reply::Int(141)), Step::Refuse(Violation::UnexpectedReply));
}

#[test]
fn released_snapshot_is_not_measured() {
    let mut snapshot = snapshot_of(0x2000, Origin::Environment);
    let _ = snapshot.release();
    let (encoding, step) = Encoding::start(&snapshot, Some(200));
    assert_eq!(step, Step::Refuse(Violation::Released));
    assert_eq!(encoding.stage(), Stage::Over);
    let (_, step) = Encoding::start(&snapshot, None);
    assert_eq!(step, Step::Refuse(Violation::Released));
}

#[test]
fn reply_is_read_as_what_it_is() {
    assert_eq!(Reply::Int(-3).into_int(), Ok(-3));
    assert_eq!(Reply::Flag(true).into_flag(), Ok(true));
    assert_eq!(Reply::Flag(false).into_flag(), Ok(false));
}

#[test]
fn reply_of_another_kind_is_a_violation() {
    assert_eq!(Reply::Done.into_int(), Err(Violation::UnexpectedReply));
    assert_eq!(Reply::Flag(true).into_int(), Err(Violation::UnexpectedReply));
    assert_eq!(Reply::Int(1).into_flag(), Err(Violation::UnexpectedReply));
    assert_eq!(Reply::Bytes(vec![1]).into_flag(), Err(Violation::UnexpectedReply));
    assert_eq!(Reply::Codes(vec![1]).into_int(), Err(Violation::UnexpectedReply));
}

#[test]
fn outcome_is_read_as_what_it_is() {
    assert_eq!(Outcome::Reward(5).into_reward(), Ok(5));
    assert_eq!(Outcome::Size(128).into_size(), Ok(128));
    assert_eq!(Outcome::Codes(vec![0, 4]).into_codes(), Ok(vec![0, 4]));
    assert_eq!(Outcome::Done.into_reward(), Err(Violation::UnexpectedReply));
    assert_eq!(Outcome::Reward(5).into_size(), Err(Violation::UnexpectedReply));
    assert_eq!(Outcome::Size(2).into_codes(), Err(Violation::UnexpectedReply));
    assert_eq!(Outcome::Bytes(vec![0, 4]).into_codes(), Err(Violation::UnexpectedReply));
}

#[test]
fn dump_is_written_at_the_start_of_the_buffer() {
    let mut exact = [9u8; 3];
    assert_eq!(Outcome::Bytes(vec![1, 0, 3]).write_to(&mut exact), Ok(()));
    assert_eq!(exact, [1, 0, 3]);
    let mut longer = [9u8; 5];
    assert_eq!(Outcome::Bytes(vec![1, 0, 3]).write_to(&mut longer), Ok(()));
    assert_eq!(longer, [1, 0, 3, 9, 9]);
}

#[test]
fn dump_that_does_not_fit_is_not_written() {
    let mut short = [9u8; 2];
    assert_eq!(
        Outcome::Bytes(vec![1, 0, 3]).write_to(&mut short),
        Err(Violation::BufferTooSmall { required: 3, got: 2 })
    );
    assert_eq!(short, [9, 9]);
    assert_eq!(Outcome::Size(3).write_to(&mut short), Err(Violation::UnexpectedReply));
    assert_eq!(Outcome::Codes(vec![1, 2]).write_to(&mut short), Err(Violation::UnexpectedReply));
    assert_eq!(short, [9, 9]);
}
