use daimon::event::{decode, encode, encode_output, Event, ProtocolError};
use daimon::function::{
    join_lines, plan_input, prepare, Channel, Format, FunctionSpec, Interface, InvokeError,
    Invocation, LocationDescriptor,
};
use daimon::node::{Node, Step};

fn bits(v: &[f32]) -> Vec<u32> {
    v.iter().map(|x| x.to_bits()).collect()
}

fn exec(location: LocationDescriptor, format: Format) -> FunctionSpec {
    FunctionSpec::Exec {
        exec_path: String::from("/bin/true"),
        input: Interface { location, format },
        output: Interface { location: LocationDescriptor::Stdout, format: Format::Plain },
    }
}

#[test]
fn echo_returns_input_unchanged() {
    let v = bits(&[1.0, -0.0, f32::NAN, 3.25]);
    match prepare(&FunctionSpec::Echo, v.clone()) {
        Ok(Invocation::Done(r)) => assert_eq!(r, v),
        _ => panic!("echo must finish at once"),
    }
    match prepare(&FunctionSpec::Echo, vec![]) {
        Ok(Invocation::Done(r)) => assert!(r.is_empty()),
        _ => panic!("echo must finish at once"),
    }
}

#[test]
fn output_envelope_layout() {
    let v = bits(&[1.0, 2.5]);
    let b = encode_output(&v);
    let mut want = vec![0u8, 0, 0, 0, 2, 0, 0, 0, 0, 0, 0, 0];
    want.extend_from_slice(&1.0f32.to_le_bytes());
    want.extend_from_slice(&2.5f32.to_le_bytes());
    assert_eq!(b, want);
    assert_eq!(encode(&Event::RequestOutput), vec![1u8, 0, 0, 0]);
}

#[test]
fn round_trip_lengths_zero_to_many() {
    for n in 0..40usize {
        let v: Vec<u32> = (0..n).map(|i| (i as f32 * -1.5).to_bits() ^ (i as u32)).collect();
        let b = encode(&Event::Output(v.clone()));
        match decode(&b) {
            Ok((Event::Output(r), used)) => {
                assert_eq!(r, v);
                assert_eq!(used, b.len());
            }
            _ => panic!("round trip failed at length {}", n),
        }
    }
}

#[test]
fn decode_leaves_trailing_bytes() {
    let mut b = encode(&Event::RequestOutput);
    b.extend_from_slice(&[9, 9, 9]);
    assert!(matches!(decode(&b), Ok((Event::RequestOutput, 4))));
}

#[test]
fn decode_errors() {
    assert_eq!(decode(&vec![0u8, 0]).err(), Some(ProtocolError::Truncated));
    assert_eq!(decode(&vec![2u8, 0, 0, 0]).err(), Some(ProtocolError::UnknownTag));
    assert_eq!(decode(&vec![0u8, 0, 0, 0, 1, 0]).err(), Some(ProtocolError::Truncated));
    let mut b = encode_output(&bits(&[1.0, 2.0]));
    b.pop();
    assert_eq!(decode(&b).err(), Some(ProtocolError::Truncated));
    let huge = vec![0u8, 0, 0, 0, 255, 255, 255, 255, 255, 255, 255, 255];
    assert_eq!(decode(&huge).err(), Some(ProtocolError::Truncated));
}

#[test]
fn plain_arguments_keep_samples_in_order() {
    let v = bits(&[1.0, 2.5, -3.0]);
    match prepare(&exec(LocationDescriptor::CmdArgs, Format::Plain), v.clone()) {
        Ok(Invocation::Arguments(r)) => {
            assert_eq!(r, v);
            let rendered: Vec<String> =
                r.iter().map(|b| f32::from_bits(*b).to_string()).collect();
            assert_eq!(rendered, vec!["1", "2.5", "-3"]);
        }
        _ => panic!("plain arguments expected"),
    }
}

#[test]
fn binary_arguments_are_refused() {
    let spec = exec(LocationDescriptor::CmdArgs, Format::Binary);
    assert!(matches!(prepare(&spec, bits(&[1.0])), Err(InvokeError::BinaryArguments)));
}

#[test]
fn unsupported_input_locations() {
    let file = exec(LocationDescriptor::File(String::from("x")), Format::Plain);
    assert!(matches!(prepare(&file, vec![]), Err(InvokeError::UnsupportedInput)));
    let out = exec(LocationDescriptor::Stdout, Format::Binary);
    assert!(matches!(prepare(&out, vec![]), Err(InvokeError::UnsupportedInput)));
    let i = Interface { location: LocationDescriptor::Stdin, format: Format::Plain };
    assert_eq!(plan_input(&i), Ok(Channel::InputText));
    assert_eq!(Format::default(), Format::Plain);
}

#[test]
fn binary_standard_input_is_counted_record() {
    let v = bits(&[1.0, -2.0]);
    match prepare(&exec(LocationDescriptor::Stdin, Format::Binary), v) {
        Ok(Invocation::InputBytes(b)) => {
            let mut want = vec![2u8, 0, 0, 0, 0, 0, 0, 0];
            want.extend_from_slice(&1.0f32.to_le_bytes());
            want.extend_from_slice(&(-2.0f32).to_le_bytes());
            assert_eq!(b, want);
        }
        _ => panic!("binary record expected"),
    }
}

#[test]
fn text_lines_joined_by_newline() {
    let texts = vec![b"1".to_vec(), b"2.5".to_vec(), b"-3".to_vec()];
    assert_eq!(join_lines(&texts), b"1\n2.5\n-3".to_vec());
    assert_eq!(join_lines(&vec![]), Vec::<u8>::new());
    assert_eq!(join_lines(&vec![b"7".to_vec()]), b"7".to_vec());
}

#[test]
fn lib_spec_calls_native_routine() {
    let spec = FunctionSpec::Lib { lib_path: String::from("m.so"), symbol: String::from("f") };
    assert!(matches!(prepare(&spec, vec![5]), Ok(Invocation::Native(v)) if v == vec![5]));
}

#[test]
fn query_does_not_change_state() {
    let s = bits(&[4.0, 5.5]);
    let node = Node::new(s.clone(), vec![]);
    let q = encode(&Event::RequestOutput);
    for _ in 0..2 {
        match node.receive(&q) {
            Ok(Step::Reply(b)) => assert_eq!(b, encode_output(&s)),
            _ => panic!("reply expected"),
        }
    }
    assert_eq!(node.outputs(), &s);
}

#[test]
fn output_fans_out_in_order() {
    let peers = vec![String::from("A"), String::from("B"), String::from("C")];
    let mut node = Node::new(vec![], peers.clone());
    let input = bits(&[1.0, 2.0]);
    let step = node.receive(&encode_output(&input));
    let v = match step {
        Ok(Step::Invoke(v)) => v,
        _ => panic!("invoke expected"),
    };
    let out = match prepare(&FunctionSpec::Echo, v) {
        Ok(Invocation::Done(o)) => o,
        _ => panic!("echo expected"),
    };
    let sent = node.complete(Ok(out)).ok().unwrap();
    assert_eq!(sent.len(), 3);
    for (d, p) in sent.iter().zip(peers.iter()) {
        assert_eq!(&d.address, p);
        assert_eq!(d.message, encode_output(&input));
    }
    assert_eq!(node.outputs(), &input);
}

#[test]
fn failed_invocation_keeps_state() {
    let s = bits(&[9.0]);
    let mut node = Node::new(s.clone(), vec![String::from("A")]);
    assert_eq!(node.complete(Err(InvokeError::SymbolNotFound)).err(), Some(InvokeError::SymbolNotFound));
    assert_eq!(node.outputs(), &s);
    assert_eq!(node.downstream().len(), 1);
}

#[test]
fn malformed_envelope_is_refused() {
    let node = Node::new(vec![], vec![]);
    assert!(matches!(node.receive(&vec![7u8, 0, 0, 0]), Err(ProtocolError::UnknownTag)));
    assert!(node.propagate().is_empty());
}

#[test]
fn announce_only_nonempty_state() {
    let peers = vec![String::from("A"), String::from("B")];
    let quiet = Node::new(vec![], peers.clone());
    assert!(quiet.announce().is_empty());
    let s = bits(&[0.5]);
    let loud = Node::new(s.clone(), peers);
    let sent = loud.announce();
    assert_eq!(sent.len(), 2);
    assert_eq!(sent[1].address, "B");
    assert_eq!(sent[0].message, encode_output(&s));
}
