use std::cell::RefCell;
use std::rc::Rc;

use dnp3::command::{
    CommandHeader, CommandPoint, CommandResponseError, CommandResultHandler, CommandTask,
    CommandTaskError, CommandValue, Crob, EchoHeader, EchoPoint, State, TaskError, TaskStatus,
    ValueKind, WriteError,
};
use dnp3::types::{ControlCode, OpType, TripCloseCode};

type Results = Rc<RefCell<Vec<Result<(), CommandTaskError>>>>;

struct Recorder {
    results: Results,
}

impl CommandResultHandler for Recorder {
    fn handle(&mut self, result: Result<(), CommandTaskError>) {
        self.results.borrow_mut().push(result);
    }
}

fn recorder() -> (Recorder, Results) {
    let results: Results = Rc::new(RefCell::new(Vec::new()));
    (Recorder { results: results.clone() }, results)
}

fn crob() -> CommandValue {
    CommandValue::Crob(Crob {
        code: ControlCode { tcc: TripCloseCode::Nul, clear: false, queue: false, op_type: OpType::LatchOn },
        count: 1,
        on_time: 1000,
        off_time: 1000,
    })
}

fn sent() -> Vec<CommandHeader> {
    vec![
        CommandHeader {
            kind: ValueKind::Crob,
            points: vec![CommandPoint { index: 3, value: crob() }, CommandPoint { index: 7, value: crob() }],
        },
        CommandHeader {
            kind: ValueKind::AnalogI16,
            points: vec![CommandPoint { index: 0, value: CommandValue::AnalogI16(-5) }],
        },
    ]
}

fn echo_of(headers: &[CommandHeader]) -> Vec<EchoHeader> {
    headers
        .iter()
        .map(|h| EchoHeader {
            kind: h.kind,
            points: h
                .points
                .iter()
                .map(|p| EchoPoint { index: p.index, value: p.value, status: 0 })
                .collect(),
        })
        .collect()
}

#[test]
fn select_with_matching_echo_advances_to_operate_then_completes() {
    let (handler, results) = recorder();
    let mut task = CommandTask::select_before_operate(sent(), handler);
    let echo = echo_of(&sent());
    assert_eq!(task.handle(&echo), TaskStatus::ExecuteNextStep);
    assert_eq!(task.state(), State::Operate);
    assert!(results.borrow().is_empty());
    assert_eq!(task.handle(&echo), TaskStatus::Complete);
    assert_eq!(*results.borrow(), vec![Ok(())]);
    assert_eq!(task.outcome(), Some(Ok(())));
}

#[test]
fn direct_operate_completes_after_one_round_trip() {
    let (handler, results) = recorder();
    let mut task = CommandTask::direct_operate(sent(), handler);
    assert_eq!(task.handle(&echo_of(&sent())), TaskStatus::Complete);
    assert_eq!(task.state(), State::DirectOperate);
    assert_eq!(*results.borrow(), vec![Ok(())]);
}

#[test]
fn select_with_bad_status_completes_with_failure() {
    let (handler, results) = recorder();
    let mut task = CommandTask::select_before_operate(sent(), handler);
    let mut echo = echo_of(&sent());
    echo[1].points[0].status = 4;
    assert_eq!(task.handle(&echo), TaskStatus::Complete);
    assert_eq!(task.state(), State::Select);
    assert_eq!(
        *results.borrow(),
        vec![Err(CommandTaskError::Response(CommandResponseError::BadStatus(4)))]
    );
    assert_eq!(task.handle(&echo_of(&sent())), TaskStatus::Complete);
    assert_eq!(results.borrow().len(), 1);
}

#[test]
fn header_count_mismatch_fewer_or_more() {
    let (handler, _) = recorder();
    let task = CommandTask::direct_operate(sent(), handler);
    let mut fewer = echo_of(&sent());
    fewer.pop();
    fewer[0].points[0].status = 1;
    assert_eq!(task.compare(&fewer), Err(CommandResponseError::HeaderCountMismatch));
    let mut more = echo_of(&sent());
    more.push(more[0].clone());
    assert_eq!(task.compare(&more), Err(CommandResponseError::HeaderCountMismatch));
    assert_eq!(task.compare(&echo_of(&sent())), Ok(()));
}

#[test]
fn compare_reports_each_fault() {
    let (handler, _) = recorder();
    let task = CommandTask::direct_operate(sent(), handler);

    let mut wrong_kind = echo_of(&sent());
    wrong_kind[1].kind = ValueKind::AnalogI32;
    assert_eq!(task.compare(&wrong_kind), Err(CommandResponseError::HeaderTypeMismatch));

    let mut wrong_count = echo_of(&sent());
    wrong_count[0].points.pop();
    assert_eq!(task.compare(&wrong_count), Err(CommandResponseError::ObjectCountMismatch));

    let mut wrong_value = echo_of(&sent());
    wrong_value[1].points[0].value = CommandValue::AnalogI16(5);
    assert_eq!(task.compare(&wrong_value), Err(CommandResponseError::ObjectValueMismatch));

    let mut wrong_index = echo_of(&sent());
    wrong_index[0].points[1].index = 8;
    assert_eq!(task.compare(&wrong_index), Err(CommandResponseError::ObjectValueMismatch));
}

#[test]
fn on_error_is_delivered_once() {
    let (handler, results) = recorder();
    let mut task = CommandTask::select_before_operate(sent(), handler);
    task.on_error(TaskError::ResponseTimeout);
    task.on_error(TaskError::Shutdown);
    assert_eq!(
        *results.borrow(),
        vec![Err(CommandTaskError::Task(TaskError::ResponseTimeout))]
    );
    assert_eq!(task.outcome(), Some(Err(CommandTaskError::Task(TaskError::ResponseTimeout))));
}

#[test]
fn format_writes_function_and_headers() {
    let (handler, _) = recorder();
    let headers = vec![CommandHeader {
        kind: ValueKind::Crob,
        points: vec![CommandPoint { index: 0x0102, value: crob() }],
    }];
    let mut task = CommandTask::select_before_operate(headers, handler);
    let expected_tail = vec![
        12, 1, 0x28, 1, 0, 0x02, 0x01, 0x03, 1, 0xE8, 0x03, 0, 0, 0xE8, 0x03, 0, 0, 0,
    ];
    let mut select = vec![0xC5, 3];
    select.extend_from_slice(&expected_tail);
    assert_eq!(task.format(5, 2048), Ok(select.clone()));
    assert_eq!(task.format(5, select.len()), Ok(select.clone()));
    assert_eq!(task.format(5, select.len() - 1), Err(WriteError::InsufficientSpace));

    let echo = vec![EchoHeader {
        kind: ValueKind::Crob,
        points: vec![EchoPoint { index: 0x0102, value: crob(), status: 0 }],
    }];
    assert_eq!(task.handle(&echo), TaskStatus::ExecuteNextStep);
    let mut operate = vec![0xC6, 4];
    operate.extend_from_slice(&expected_tail);
    assert_eq!(task.format(0x16, 2048), Ok(operate));
}

#[test]
fn format_direct_operate_analog() {
    let (handler, _) = recorder();
    let headers = vec![CommandHeader {
        kind: ValueKind::AnalogI32,
        points: vec![CommandPoint { index: 2, value: CommandValue::AnalogI32(-2) }],
    }];
    let task = CommandTask::direct_operate(headers, handler);
    assert_eq!(
        task.format(0, 100),
        Ok(vec![0xC0, 5, 41, 1, 0x28, 1, 0, 2, 0, 0xFE, 0xFF, 0xFF, 0xFF, 0])
    );
}
