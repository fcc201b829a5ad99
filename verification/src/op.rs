//! The closed catalog of built-in operators.
//!
//! Each operator has a fixed textual name and (in `sig`) a signature
//! describing its stack operands, its modifier operands and its return
//! constraint. The execution rules live in `machine`, next to the
//! evaluation loop that dispatches them.

use vstd::prelude::*;

use crate::types::{
    heterogeneous_binary, homogenous_binary, nullary, unary, Constraint, Params, Signature,
};

verus! {

/// One built-in operator of the language.
#[derive(Clone, Copy, PartialEq, Eq, Structural, Debug)]
pub enum Op {
    Void,
    IOPrint,
    IORead,
    ParseInt,
    ParseFloat,
    ParseWords,
    Add,
    Sub,
    Mul,
    Div,
    IntDiv,
    LT,
    GT,
    EQ,
    And,
    Or,
    Not,
    Head,
    Tail,
    Empty,
    Length,
    Cons,
    Append,
    Each,
    MapList,
    Foldl,
    If,
    Loop,
    Times,
    Exec,
    Assign,
    AssignFunc,
    AsSymbol,
    EvalSymbol,
    Dup,
    Swap,
    Pop,
    Mod,
    Error,
}

impl Op {
    /// The textual name of the operator, as programs write it.
    pub fn name(&self) -> (r: &'static str)
        ensures
            r@ == self.name_spec(),
    {
        match self {
            Op::Void => "()",
            Op::IOPrint => "print",
            Op::IORead => "read",
            Op::ParseInt => "parseInteger",
            Op::ParseFloat => "parseFloat",
            Op::ParseWords => "words",
            Op::Mod => "%",
            Op::Add => "+",
            Op::Sub => "-",
            Op::Mul => "*",
            Op::Div => "/",
            Op::IntDiv => "div",
            Op::LT => "<",
            Op::GT => ">",
            Op::EQ => "==",
            Op::And => "&&",
            Op::Or => "||",
            Op::Not => "not",
            Op::Head => "head",
            Op::Tail => "tail",
            Op::Empty => "empty",
            Op::Length => "length",
            Op::Cons => "cons",
            Op::Append => "append",
            Op::Each => "each",
            Op::MapList => "map",
            Op::Foldl => "foldl",
            Op::If => "if",
            Op::Loop => "loop",
            Op::Times => "times",
            Op::Exec => "exec",
            Op::Assign => ":=",
            Op::AssignFunc => "fun",
            Op::AsSymbol => "'",
            Op::EvalSymbol => "eval",
            Op::Dup => "dup",
            Op::Swap => "swap",
            Op::Pop => "pop",
            Op::Error => "err",
        }
    }

    /// What `name` returns, as a sequence of characters.
    pub open spec fn name_spec(&self) -> Seq<char> {
        match self {
            Op::Void => "()"@,
            Op::IOPrint => "print"@,
            Op::IORead => "read"@,
            Op::ParseInt => "parseInteger"@,
            Op::ParseFloat => "parseFloat"@,
            Op::ParseWords => "words"@,
            Op::Mod => "%"@,
            Op::Add => "+"@,
            Op::Sub => "-"@,
            Op::Mul => "*"@,
            Op::Div => "/"@,
            Op::IntDiv => "div"@,
            Op::LT => "<"@,
            Op::GT => ">"@,
            Op::EQ => "=="@,
            Op::And => "&&"@,
            Op::Or => "||"@,
            Op::Not => "not"@,
            Op::Head => "head"@,
            Op::Tail => "tail"@,
            Op::Empty => "empty"@,
            Op::Length => "length"@,
            Op::Cons => "cons"@,
            Op::Append => "append"@,
            Op::Each => "each"@,
            Op::MapList => "map"@,
            Op::Foldl => "foldl"@,
            Op::If => "if"@,
            Op::Loop => "loop"@,
            Op::Times => "times"@,
            Op::Exec => "exec"@,
            Op::Assign => ":="@,
            Op::AssignFunc => "fun"@,
            Op::AsSymbol => "'"@,
            Op::EvalSymbol => "eval"@,
            Op::Dup => "dup"@,
            Op::Swap => "swap"@,
            Op::Pop => "pop"@,
            Op::Error => "err"@,
        }
    }
}

/// The operator a token names, if any: the inverse of the name table.
pub open spec fn op_for_name(s: Seq<char>) -> Option<Op> {
    if s == "print"@ {
        Some(Op::IOPrint)
    } else if s == "read"@ {
        Some(Op::IORead)
    } else if s == "parseInteger"@ {
        Some(Op::ParseInt)
    } else if s == "parseFloat"@ {
        Some(Op::ParseFloat)
    } else if s == "words"@ {
        Some(Op::ParseWords)
    } else if s == "%"@ {
        Some(Op::Mod)
    } else if s == "+"@ {
        Some(Op::Add)
    } else if s == "-"@ {
        Some(Op::Sub)
    } else if s == "*"@ {
        Some(Op::Mul)
    } else if s == "/"@ {
        Some(Op::Div)
    } else if s == "div"@ {
        Some(Op::IntDiv)
    } else if s == "<"@ {
        Some(Op::LT)
    } else if s == ">"@ {
        Some(Op::GT)
    } else if s == "=="@ {
        Some(Op::EQ)
    } else if s == "&&"@ {
        Some(Op::And)
    } else if s == "||"@ {
        Some(Op::Or)
    } else if s == "not"@ {
        Some(Op::Not)
    } else if s == "head"@ {
        Some(Op::Head)
    } else if s == "tail"@ {
        Some(Op::Tail)
    } else if s == "empty"@ {
        Some(Op::Empty)
    } else if s == "length"@ {
        Some(Op::Length)
    } else if s == "cons"@ {
        Some(Op::Cons)
    } else if s == "append"@ {
        Some(Op::Append)
    } else if s == "each"@ {
        Some(Op::Each)
    } else if s == "map"@ {
        Some(Op::MapList)
    } else if s == "foldl"@ {
        Some(Op::Foldl)
    } else if s == "if"@ {
        Some(Op::If)
    } else if s == "loop"@ {
        Some(Op::Loop)
    } else if s == "times"@ {
        Some(Op::Times)
    } else if s == "exec"@ {
        Some(Op::Exec)
    } else if s == ":="@ {
        Some(Op::Assign)
    } else if s == "fun"@ {
        Some(Op::AssignFunc)
    } else if s == "'"@ {
        Some(Op::AsSymbol)
    } else if s == "eval"@ {
        Some(Op::EvalSymbol)
    } else if s == "pop"@ {
        Some(Op::Pop)
    } else if s == "swap"@ {
        Some(Op::Swap)
    } else if s == "dup"@ {
        Some(Op::Dup)
    } else if s == "()"@ {
        Some(Op::Void)
    } else if s == "err"@ {
        Some(Op::Error)
    } else {
        None
    }
}

impl Op {
    /// Looks a token up in the operator name table.
    pub fn from_name(s: &String) -> (r: Option<Op>)
        ensures
            r == op_for_name(s@),
    {
        if s.eq(&String::from_str("print")) {
            Some(Op::IOPrint)
        } else if s.eq(&String::from_str("read")) {
            Some(Op::IORead)
        } else if s.eq(&String::from_str("parseInteger")) {
            Some(Op::ParseInt)
        } else if s.eq(&String::from_str("parseFloat")) {
            Some(Op::ParseFloat)
        } else if s.eq(&String::from_str("words")) {
            Some(Op::ParseWords)
        } else if s.eq(&String::from_str("%")) {
            Some(Op::Mod)
        } else if s.eq(&String::from_str("+")) {
            Some(Op::Add)
        } else if s.eq(&String::from_str("-")) {
            Some(Op::Sub)
        } else if s.eq(&String::from_str("*")) {
            Some(Op::Mul)
        } else if s.eq(&String::from_str("/")) {
            Some(Op::Div)
        } else if s.eq(&String::from_str("div")) {
            Some(Op::IntDiv)
        } else if s.eq(&String::from_str("<")) {
            Some(Op::LT)
        } else if s.eq(&String::from_str(">")) {
            Some(Op::GT)
        } else if s.eq(&String::from_str("==")) {
            Some(Op::EQ)
        } else if s.eq(&String::from_str("&&")) {
            Some(Op::And)
        } else if s.eq(&String::from_str("||")) {
            Some(Op::Or)
        } else if s.eq(&String::from_str("not")) {
            Some(Op::Not)
        } else if s.eq(&String::from_str("head")) {
            Some(Op::Head)
        } else if s.eq(&String::from_str("tail")) {
            Some(Op::Tail)
        } else if s.eq(&String::from_str("empty")) {
            Some(Op::Empty)
        } else if s.eq(&String::from_str("length")) {
            Some(Op::Length)
        } else if s.eq(&String::from_str("cons")) {
            Some(Op::Cons)
        } else if s.eq(&String::from_str("append")) {
            Some(Op::Append)
        } else if s.eq(&String::from_str("each")) {
            Some(Op::Each)
        } else if s.eq(&String::from_str("map")) {
            Some(Op::MapList)
        } else if s.eq(&String::from_str("foldl")) {
            Some(Op::Foldl)
        } else if s.eq(&String::from_str("if")) {
            Some(Op::If)
        } else if s.eq(&String::from_str("loop")) {
            Some(Op::Loop)
        } else if s.eq(&String::from_str("times")) {
            Some(Op::Times)
        } else if s.eq(&String::from_str("exec")) {
            Some(Op::Exec)
        } else if s.eq(&String::from_str(":=")) {
            Some(Op::Assign)
        } else if s.eq(&String::from_str("fun")) {
            Some(Op::AssignFunc)
        } else if s.eq(&String::from_str("'")) {
            Some(Op::AsSymbol)
        } else if s.eq(&String::from_str("eval")) {
            Some(Op::EvalSymbol)
        } else if s.eq(&String::from_str("pop")) {
            Some(Op::Pop)
        } else if s.eq(&String::from_str("swap")) {
            Some(Op::Swap)
        } else if s.eq(&String::from_str("dup")) {
            Some(Op::Dup)
        } else if s.eq(&String::from_str("()")) {
            Some(Op::Void)
        } else if s.eq(&String::from_str("err")) {
            Some(Op::Error)
        } else {
            None
        }
    }
}

/// The signature of each operator: which operands come off the stack,
/// which come off the front of the pending input, and what constraint
/// the result satisfies.
pub open spec fn sig_spec(op: Op) -> Signature {
    let none = Params::Nullary;
    match op {
        Op::Void => Signature { stack_args: none, modifiers: none, ret: Constraint::Void },
        Op::IOPrint => Signature {
            stack_args: Params::Unary(Constraint::Display),
            modifiers: none,
            ret: Constraint::Void,
        },
        Op::IORead => Signature { stack_args: none, modifiers: none, ret: Constraint::String },
        Op::ParseInt => Signature {
            stack_args: Params::Unary(Constraint::String),
            modifiers: none,
            ret: Constraint::Integer,
        },
        Op::ParseFloat => Signature {
            stack_args: Params::Unary(Constraint::String),
            modifiers: none,
            ret: Constraint::Float,
        },
        Op::ParseWords => Signature {
            stack_args: Params::Unary(Constraint::String),
            modifiers: none,
            ret: Constraint::List,
        },
        Op::Mod => Signature {
            stack_args: Params::Binary(Constraint::Integer, Constraint::Integer),
            modifiers: none,
            ret: Constraint::Integer,
        },
        Op::Add | Op::Sub | Op::Mul | Op::Div | Op::IntDiv => Signature {
            stack_args: Params::Binary(Constraint::Num, Constraint::Num),
            modifiers: none,
            ret: Constraint::Num,
        },
        Op::LT | Op::GT => Signature {
            stack_args: Params::Binary(Constraint::Ord, Constraint::Ord),
            modifiers: none,
            ret: Constraint::Bool,
        },
        Op::EQ => Signature {
            stack_args: Params::Binary(Constraint::Eq, Constraint::Eq),
            modifiers: none,
            ret: Constraint::Bool,
        },
        Op::And | Op::Or => Signature {
            stack_args: Params::Binary(Constraint::Boolean, Constraint::Boolean),
            modifiers: none,
            ret: Constraint::Bool,
        },
        Op::Not => Signature {
            stack_args: Params::Unary(Constraint::Any),
            modifiers: none,
            ret: Constraint::Any,
        },
        Op::Head => Signature {
            stack_args: Params::Unary(Constraint::List),
            modifiers: none,
            ret: Constraint::Any,
        },
        Op::Tail => Signature {
            stack_args: Params::Unary(Constraint::List),
            modifiers: none,
            ret: Constraint::List,
        },
        Op::Empty => Signature {
            stack_args: Params::Unary(Constraint::Sized),
            modifiers: none,
            ret: Constraint::Bool,
        },
        Op::Length => Signature {
            stack_args: Params::Unary(Constraint::Sized),
            modifiers: none,
            ret: Constraint::Integer,
        },
        Op::Cons => Signature {
            stack_args: Params::Binary(Constraint::Any, Constraint::List),
            modifiers: none,
            ret: Constraint::List,
        },
        Op::Append => Signature {
            stack_args: Params::Binary(Constraint::Sized, Constraint::Sized),
            modifiers: none,
            ret: Constraint::Sized,
        },
        Op::Each => Signature {
            stack_args: Params::Unary(Constraint::List),
            modifiers: Params::Unary(Constraint::Executable),
            ret: Constraint::Any,
        },
        Op::MapList => Signature {
            stack_args: Params::Unary(Constraint::List),
            modifiers: Params::Unary(Constraint::Executable),
            ret: Constraint::Quotation,
        },
        Op::Foldl => Signature {
            stack_args: Params::Binary(Constraint::List, Constraint::Any),
            modifiers: Params::Unary(Constraint::Executable),
            ret: Constraint::Executable,
        },
        Op::If => Signature {
            stack_args: Params::Unary(Constraint::Boolean),
            modifiers: Params::Binary(Constraint::Any, Constraint::Any),
            ret: Constraint::Any,
        },
        Op::Loop => Signature {
            stack_args: none,
            modifiers: Params::Binary(Constraint::Executable, Constraint::Executable),
            ret: Constraint::Any,
        },
        Op::Times => Signature {
            stack_args: Params::Unary(Constraint::Integer),
            modifiers: Params::Unary(Constraint::Any),
            ret: Constraint::Any,
        },
        Op::Exec => Signature {
            stack_args: Params::Unary(Constraint::Executable),
            modifiers: none,
            ret: Constraint::Executable,
        },
        Op::Assign => Signature {
            stack_args: Params::Binary(Constraint::Symbol, Constraint::Any),
            modifiers: none,
            ret: Constraint::Void,
        },
        Op::AssignFunc => Signature {
            stack_args: Params::Binary(Constraint::Symbol, Constraint::Executable),
            modifiers: none,
            ret: Constraint::Void,
        },
        Op::AsSymbol => Signature {
            stack_args: none,
            modifiers: Params::Unary(Constraint::Symbol),
            ret: Constraint::Symbol,
        },
        Op::EvalSymbol => Signature {
            stack_args: Params::Unary(Constraint::Symbol),
            modifiers: none,
            ret: Constraint::Any,
        },
        Op::Dup => Signature {
            stack_args: Params::Unary(Constraint::Any),
            modifiers: none,
            ret: Constraint::Any,
        },
        Op::Swap => Signature {
            stack_args: Params::Binary(Constraint::Any, Constraint::Any),
            modifiers: none,
            ret: Constraint::Any,
        },
        Op::Pop => Signature {
            stack_args: Params::Unary(Constraint::Any),
            modifiers: none,
            ret: Constraint::Void,
        },
        Op::Error => Signature {
            stack_args: none,
            modifiers: Params::Unary(Constraint::String),
            ret: Constraint::Error,
        },
    }
}

/// No operator takes three operands from either source: the ternary
/// shape exists only so that signatures can describe it.
pub proof fn sig_spec_never_ternary(op: Op)
    ensures
        !(sig_spec(op).stack_args is Ternary),
        !(sig_spec(op).modifiers is Ternary),
{
}

impl Op {
    /// Retrieves the signature of this operator, with its argument and
    /// return constraints.
    pub fn get_signature(&self) -> (r: Signature)
        ensures
            r == sig_spec(*self),
    {
        match self {
            Op::Void => Self::get_void_sig(),
            Op::IOPrint => Self::get_print_sig(),
            Op::IORead => Self::get_read_sig(),
            Op::ParseInt => Self::get_parse_int_sig(),
            Op::ParseFloat => Self::get_parse_float_sig(),
            Op::ParseWords => Self::get_words_sig(),
            Op::Mod => Self::get_mod_sig(),
            Op::Add | Op::Sub | Op::Mul | Op::Div => Self::get_arithmetic_sig(),
            Op::IntDiv => Self::get_arithmetic_sig(),
            Op::LT | Op::GT => Self::get_ord_sig(),
            Op::EQ => Self::get_eq_sig(),
            Op::And | Op::Or => Self::get_and_or_sig(),
            Op::Not => Self::get_not_sig(),
            Op::Head => Self::get_head_sig(),
            Op::Tail => Self::get_tail_sig(),
            Op::Empty => Self::get_empty_sig(),
            Op::Length => Self::get_length_sig(),
            Op::Cons => Self::get_cons_sig(),
            Op::Append => Self::get_append_sig(),
            Op::Each => Self::get_each_sig(),
            Op::MapList => Self::get_map_sig(),
            Op::Foldl => Self::get_foldl_sig(),
            Op::If => Self::get_if_sig(),
            Op::Loop => Self::get_loop_sig(),
            Op::Times => Self::get_times_sig(),
            Op::Exec => Self::get_exec_sig(),
            Op::Assign => Self::get_assign_sig(),
            Op::AssignFunc => Self::get_assign_func_sig(),
            Op::AsSymbol => Self::get_as_symbol_sig(),
            Op::EvalSymbol => Self::get_eval_symbol_sig(),
            Op::Dup => Self::get_dup_sig(),
            Op::Swap => Self::get_swap_sig(),
            Op::Pop => Self::get_pop_sig(),
            Op::Error => Self::get_err_sig(),
        }
    }

    pub fn get_void_sig() -> (r: Signature)
        ensures
            r == sig_spec(Op::Void),
    {
        nullary(Constraint::Void)
    }

    pub fn get_print_sig() -> (r: Signature)
        ensures
            r == sig_spec(Op::IOPrint),
    {
        unary(Constraint::Display, Constraint::Void)
    }

    pub fn get_read_sig() -> (r: Signature)
        ensures
            r == sig_spec(Op::IORead),
    {
        nullary(Constraint::String)
    }

    pub fn get_parse_int_sig() -> (r: Signature)
        ensures
            r == sig_spec(Op::ParseInt),
    {
        unary(Constraint::String, Constraint::Integer)
    }

    pub fn get_parse_float_sig() -> (r: Signature)
        ensures
            r == sig_spec(Op::ParseFloat),
    {
        unary(Constraint::String, Constraint::Float)
    }

    pub fn get_words_sig() -> (r: Signature)
        ensures
            r == sig_spec(Op::ParseWords),
    {
        unary(Constraint::String, Constraint::List)
    }

    pub fn get_mod_sig() -> (r: Signature)
        ensures
            r == sig_spec(Op::Mod),
    {
        homogenous_binary(Constraint::Integer, Constraint::Integer)
    }

    pub fn get_arithmetic_sig() -> (r: Signature)
        ensures
            r == sig_spec(Op::Add),
    {
        homogenous_binary(Constraint::Num, Constraint::Num)
    }

    pub fn get_ord_sig() -> (r: Signature)
        ensures
            r == sig_spec(Op::LT),
    {
        homogenous_binary(Constraint::Ord, Constraint::Bool)
    }

    pub fn get_eq_sig() -> (r: Signature)
        ensures
            r == sig_spec(Op::EQ),
    {
        homogenous_binary(Constraint::Eq, Constraint::Bool)
    }

    pub fn get_and_or_sig() -> (r: Signature)
        ensures
            r == sig_spec(Op::And),
    {
        homogenous_binary(Constraint::Boolean, Constraint::Bool)
    }

    pub fn get_not_sig() -> (r: Signature)
        ensures
            r == sig_spec(Op::Not),
    {
        unary(Constraint::Any, Constraint::Any)
    }

    pub fn get_head_sig() -> (r: Signature)
        ensures
            r == sig_spec(Op::Head),
    {
        unary(Constraint::List, Constraint::Any)
    }

    pub fn get_tail_sig() -> (r: Signature)
        ensures
            r == sig_spec(Op::Tail),
    {
        unary(Constraint::List, Constraint::List)
    }

    pub fn get_empty_sig() -> (r: Signature)
        ensures
            r == sig_spec(Op::Empty),
    {
        unary(Constraint::Sized, Constraint::Bool)
    }

    pub fn get_length_sig() -> (r: Signature)
        ensures
            r == sig_spec(Op::Length),
    {
        unary(Constraint::Sized, Constraint::Integer)
    }

    pub fn get_cons_sig() -> (r: Signature)
        ensures
            r == sig_spec(Op::Cons),
    {
        heterogeneous_binary(Constraint::Any, Constraint::List, Constraint::List)
    }

    pub fn get_append_sig() -> (r: Signature)
        ensures
            r == sig_spec(Op::Append),
    {
        homogenous_binary(Constraint::Sized, Constraint::Sized)
    }

    pub fn get_each_sig() -> (r: Signature)
        ensures
            r == sig_spec(Op::Each),
    {
        let mut sig = unary(Constraint::List, Constraint::Any);
        sig.modifiers = Params::Unary(Constraint::Executable);
        sig
    }

    pub fn get_map_sig() -> (r: Signature)
        ensures
            r == sig_spec(Op::MapList),
    {
        let mut sig = unary(Constraint::List, Constraint::Quotation);
        sig.modifiers = Params::Unary(Constraint::Executable);
        sig
    }

    pub fn get_foldl_sig() -> (r: Signature)
        ensures
            r == sig_spec(Op::Foldl),
    {
        let mut sig = heterogeneous_binary(Constraint::List, Constraint::Any, Constraint::Executable);
        sig.modifiers = Params::Unary(Constraint::Executable);
        sig
    }

    pub fn get_if_sig() -> (r: Signature)
        ensures
            r == sig_spec(Op::If),
    {
        let mut sig = unary(Constraint::Boolean, Constraint::Any);
        sig.modifiers = Params::Binary(Constraint::Any, Constraint::Any);
        sig
    }

    pub fn get_loop_sig() -> (r: Signature)
        ensures
            r == sig_spec(Op::Loop),
    {
        let mut sig = nullary(Constraint::Any);
        sig.modifiers = Params::Binary(Constraint::Executable, Constraint::Executable);
        sig
    }

    pub fn get_times_sig() -> (r: Signature)
        ensures
            r == sig_spec(Op::Times),
    {
        let mut sig = unary(Constraint::Integer, Constraint::Any);
        sig.modifiers = Params::Unary(Constraint::Any);
        sig
    }

    pub fn get_exec_sig() -> (r: Signature)
        ensures
            r == sig_spec(Op::Exec),
    {
        unary(Constraint::Executable, Constraint::Executable)
    }

    pub fn get_assign_sig() -> (r: Signature)
        ensures
            r == sig_spec(Op::Assign),
    {
        heterogeneous_binary(Constraint::Symbol, Constraint::Any, Constraint::Void)
    }

    pub fn get_assign_func_sig() -> (r: Signature)
        ensures
            r == sig_spec(Op::AssignFunc),
    {
        heterogeneous_binary(Constraint::Symbol, Constraint::Executable, Constraint::Void)
    }

    pub fn get_as_symbol_sig() -> (r: Signature)
        ensures
            r == sig_spec(Op::AsSymbol),
    {
        let mut sig = nullary(Constraint::Symbol);
        sig.modifiers = Params::Unary(Constraint::Symbol);
        sig
    }

    pub fn get_eval_symbol_sig() -> (r: Signature)
        ensures
            r == sig_spec(Op::EvalSymbol),
    {
        unary(Constraint::Symbol, Constraint::Any)
    }

    pub fn get_dup_sig() -> (r: Signature)
        ensures
            r == sig_spec(Op::Dup),
    {
        unary(Constraint::Any, Constraint::Any)
    }

    pub fn get_swap_sig() -> (r: Signature)
        ensures
            r == sig_spec(Op::Swap),
    {
        heterogeneous_binary(Constraint::Any, Constraint::Any, Constraint::Any)
    }

    pub fn get_pop_sig() -> (r: Signature)
        ensures
            r == sig_spec(Op::Pop),
    {
        unary(Constraint::Any, Constraint::Void)
    }

    pub fn get_err_sig() -> (r: Signature)
        ensures
            r == sig_spec(Op::Error),
    {
        let mut sig = nullary(Constraint::Error);
        sig.modifiers = Params::Unary(Constraint::String);
        sig
    }
}

} // verus!
