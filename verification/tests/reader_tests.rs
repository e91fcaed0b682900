use yowl::read::read;
use yowl::read::read_trace;
use yowl::read::ReadError;
use yowl::read::Trace;
use yowl::write::Writer;

#[test]
fn blank() {
    let mut writer = Writer::default();

    assert_eq!(read("", &mut writer), Err(ReadError::EndOfLine))
}

#[test]
fn leading_paren() {
    let mut writer = Writer::default();

    assert_eq!(read("(", &mut writer), Err(ReadError::Character(0)))
}

#[test]
fn invalid_tail() {
    let mut writer = Writer::default();

    assert_eq!(read("*?", &mut writer), Err(ReadError::Character(1)))
}

#[test]
fn trailing_bond() {
    let mut writer = Writer::default();

    assert_eq!(read("*-", &mut writer), Err(ReadError::EndOfLine))
}

#[test]
fn trailing_dot() {
    let mut writer = Writer::default();

    assert_eq!(read("*.", &mut writer), Err(ReadError::EndOfLine))
}

#[test]
fn cut_percent_single_digit() {
    let mut writer = Writer::default();

    assert_eq!(read("*%1*", &mut writer), Err(ReadError::Character(3)))
}

#[test]
fn open_paren_eol() {
    let mut writer = Writer::default();

    assert_eq!(read("*(", &mut writer), Err(ReadError::EndOfLine))
}

#[test]
fn missing_close_paren() {
    let mut writer = Writer::default();

    assert_eq!(read("*(*", &mut writer), Err(ReadError::EndOfLine))
}

#[test]
fn bond_to_invalid() {
    let mut writer = Writer::default();

    assert_eq!(read("*-X", &mut writer), Err(ReadError::Character(2)))
}

#[test]
fn split_to_invalid() {
    let mut writer = Writer::default();

    assert_eq!(read("*.X", &mut writer), Err(ReadError::Character(2)))
}

#[test]
fn branch_invalid() {
    let mut writer = Writer::default();

    assert_eq!(read("*(X)", &mut writer), Err(ReadError::Character(2)))
}

#[test]
fn branch_rnum() {
    let mut writer = Writer::default();

    assert_eq!(read("*(1)*", &mut writer), Err(ReadError::Character(2)))
}

#[test]
fn branch_bond_rnum() {
    let mut writer = Writer::default();

    assert_eq!(read("*(-1)*", &mut writer), Err(ReadError::Character(3)))
}

#[test]
fn dot_rnum() {
    let mut writer = Writer::default();

    assert_eq!(read("*.1", &mut writer), Err(ReadError::Character(2)))
}

#[test]
fn branch_split_invalid() {
    let mut writer = Writer::default();

    assert_eq!(read("*(.X)", &mut writer), Err(ReadError::Character(3)))
}

#[test]
fn reader_p1() {
    let mut writer = Writer::default();

    read("*", &mut writer).unwrap();

    assert_eq!(writer.write(), "*")
}

#[test]
fn reader_aliphatic_organic() {
    let mut writer = Writer::default();

    read("C", &mut writer).unwrap();

    assert_eq!(writer.write(), "C")
}

#[test]
fn aromatic_organic() {
    let mut writer = Writer::default();

    read("c", &mut writer).unwrap();

    assert_eq!(writer.write(), "c")
}

#[test]
fn bracket() {
    let mut writer = Writer::default();

    read("[CH4]", &mut writer).unwrap();

    assert_eq!(writer.write(), "[CH4]")
}

#[test]
fn elided_rnum() {
    let mut writer = Writer::default();

    read("*1", &mut writer).unwrap();

    assert_eq!(writer.write(), "*1")
}

#[test]
fn single_rnum() {
    let mut writer = Writer::default();

    read("*-1", &mut writer).unwrap();

    assert_eq!(writer.write(), "*-1")
}

#[test]
fn reader_p1_p1() {
    let mut writer = Writer::default();

    read("*.*", &mut writer).unwrap();

    assert_eq!(writer.write(), "*.*")
}

#[test]
fn p1_p2_branched_inner() {
    let mut writer = Writer::default();

    read("*(.*)*", &mut writer).unwrap();

    assert_eq!(writer.write(), "*(.*)*")
}

#[test]
fn reader_p2() {
    let mut writer = Writer::default();

    read("*-*", &mut writer).unwrap();

    assert_eq!(writer.write(), "*-*")
}

#[test]
fn reader_p3() {
    let mut writer = Writer::default();

    read("**-*", &mut writer).unwrap();

    assert_eq!(writer.write(), "**-*")
}

#[test]
fn reader_p3_branched() {
    let mut writer = Writer::default();

    read("*(-*)=*", &mut writer).unwrap();

    assert_eq!(writer.write(), "*(-*)=*")
}

#[test]
fn p4_branched_inside() {
    let mut writer = Writer::default();

    read("*(-**)=*", &mut writer).unwrap();

    assert_eq!(writer.write(), "*(-**)=*")
}

#[test]
fn p4_branched_outside() {
    let mut writer = Writer::default();

    read("*(-*)=**", &mut writer).unwrap();

    assert_eq!(writer.write(), "*(-*)=**")
}

#[test]
fn nested() {
    let mut writer = Writer::default();

    read("*(*(*-*)*)*", &mut writer).unwrap();

    assert_eq!(writer.write(), "*(*(*-*)*)*")
}

#[test]
fn s4_inside() {
    let mut writer = Writer::default();

    read("*(-*)(=*)(#*)*", &mut writer).unwrap();

    assert_eq!(writer.write(), "*(-*)(=*)(#*)*")
}

#[test]
fn s4_outside() {
    let mut writer = Writer::default();

    read("**(-*)(=*)*", &mut writer).unwrap();

    assert_eq!(writer.write(), "**(-*)(=*)*")
}

#[test]
fn foo() {
    let mut writer = Writer::default();

    read("C(F)Cl", &mut writer).unwrap();

    assert_eq!(writer.write(), "C(F)Cl")
}

#[test]
fn trace_p1() {
    let mut trace = Trace::new();
    let mut writer = Writer::default();

    read_trace("*", &mut writer, &mut trace).unwrap();

    assert_eq!(trace.atom(0), Some((0, 1)))
}

#[test]
fn trace_p2() {
    let mut trace = Trace::new();
    let mut writer = Writer::default();

    read_trace("**", &mut writer, &mut trace).unwrap();

    assert_eq!(trace.atom(0), Some((0, 1)));
    assert_eq!(trace.atom(1), Some((1, 2)));
    assert_eq!(trace.bond(0, 1), Some(1));
    assert_eq!(trace.bond(1, 0), Some(1))
}

#[test]
fn trace_p2_single() {
    let mut trace = Trace::new();
    let mut writer = Writer::default();

    read_trace("*-*", &mut writer, &mut trace).unwrap();

    assert_eq!(trace.atom(0), Some((0, 1)));
    assert_eq!(trace.atom(1), Some((2, 3)));
    assert_eq!(trace.bond(0, 1), Some(1));
    assert_eq!(trace.bond(1, 0), Some(1))
}

#[test]
fn trace_p3_branched() {
    let mut trace = Trace::new();
    let mut writer = Writer::default();

    read_trace("*(*)*", &mut writer, &mut trace).unwrap();

    assert_eq!(trace.atom(0), Some((0, 1)));
    assert_eq!(trace.atom(1), Some((2, 3)));
    assert_eq!(trace.atom(2), Some((4, 5)));
    assert_eq!(trace.bond(0, 1), Some(2));
    assert_eq!(trace.bond(1, 0), Some(2));
    assert_eq!(trace.bond(0, 2), Some(4));
    assert_eq!(trace.bond(2, 0), Some(4))
}

#[test]
fn trace_c3() {
    let mut trace = Trace::new();
    let mut writer = Writer::default();

    read_trace("*1**1", &mut writer, &mut trace).unwrap();

    assert_eq!(trace.atom(0), Some((0, 1)));
    assert_eq!(trace.atom(1), Some((2, 3)));
    assert_eq!(trace.atom(2), Some((3, 4)));
    assert_eq!(trace.bond(0, 1), Some(2));
    assert_eq!(trace.bond(1, 0), Some(2));
    assert_eq!(trace.bond(1, 2), Some(3));
    assert_eq!(trace.bond(2, 1), Some(3));
    assert_eq!(trace.bond(2, 0), Some(4));
}
