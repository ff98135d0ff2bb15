use autodiff::cell::function::exp::Exp;
use autodiff::cell::function::power::Power;
use autodiff::cell::function::square::Square;
use autodiff::cell::function::{BackwardError, Function};
use autodiff::cell::scalar::{pow_usize, Scalar};
use autodiff::cell::tensor::Tensor;
use autodiff::cell::variable::Variable;

/// A 64-bit floating-point tensor element for exercising the library.
#[derive(Clone, Copy, Debug, PartialEq)]
struct F64(f64);

impl Scalar for F64 {
    // the spec-level items give the executable ones their meaning and are
    // never run; here each is the same floating-point computation
    fn exp_spec(self) -> F64 {
        F64(self.0.exp())
    }

    fn times_spec(self, rhs: F64) -> F64 {
        F64(self.0 * rhs.0)
    }

    fn recip_spec(self) -> F64 {
        F64(1.0 / self.0)
    }

    fn one_spec() -> F64 {
        F64(1.0)
    }

    fn of_usize_spec(n: usize) -> F64 {
        F64(n as f64)
    }

    fn exp(&self) -> F64 {
        F64(self.0.exp())
    }

    fn times(&self, rhs: &F64) -> F64 {
        F64(self.0 * rhs.0)
    }

    fn recip(&self) -> F64 {
        F64(1.0 / self.0)
    }

    fn one() -> F64 {
        F64(1.0)
    }

    fn of_usize(n: usize) -> F64 {
        F64(n as f64)
    }
}

fn t(shape: &[usize], vals: &[f64]) -> Tensor<F64> {
    let data: Vec<F64> = vals.iter().map(|v| F64(*v)).collect();
    Tensor::from_shape_vec(shape.to_vec(), data).unwrap()
}

#[test]
fn it_works() {
    let mut exp = Exp::new();
    let input = Variable::new(t(&[2, 2], &[1.0, 2.0, 3.0, 4.0]));
    let expected: Vec<f64> = vec![1.0_f64, 2.0_f64, 3.0_f64, 4.0_f64]
        .into_iter()
        .map(|e| e.exp())
        .collect();
    assert_eq!(exp.call(&input).data, t(&[2, 2], &expected));
    let gy = t(&[2, 2], &[1.0, 1.0, 1.0, 1.0]);
    assert_eq!(exp.backward(&gy).unwrap(), t(&[2, 2], &expected));
}

#[test]
fn power_call_works() {
    let mut square = Power::new(5);
    let input = Variable::new(t(&[2, 2], &[1.0, 2.0, 3.0, 4.0]));
    let output = square.call(&input);
    assert_eq!(output.data, t(&[2, 2], &[1.0, 32.0, 243.0, 1024.0]));
    let gy = t(&[2, 2], &[1.0, 1.0, 1.0, 1.0]);
    assert_eq!(square.backward(&gy).unwrap(), t(&[2, 2], &[5.0, 80.0, 405.0, 1280.0]));
}

#[test]
fn square_call_works() {
    let mut square = Square::new();
    let input = Variable::new(t(&[2, 2], &[1.0, 2.0, 3.0, 4.0]));
    let output = square.call(&input);
    assert_eq!(output.data, t(&[2, 2], &[1.0, 4.0, 9.0, 16.0]));
    let gy = t(&[2, 2], &[1.0, 1.0, 1.0, 1.0]);
    assert_eq!(square.backward(&gy).unwrap(), t(&[2, 2], &[2.0, 4.0, 6.0, 8.0]));
}

#[test]
fn exp_backward_scales_upstream_gradient() {
    let mut exp = Exp::new();
    let input = Variable::new(t(&[2], &[0.5, -1.25]));
    let _ = exp.call(&input);
    let gy = t(&[2], &[3.0, 0.25]);
    let expected = t(&[2], &[3.0 * (0.5_f64).exp(), 0.25 * (-1.25_f64).exp()]);
    assert_eq!(exp.backward(&gy).unwrap(), expected);
}

#[test]
fn power_two_agrees_with_square() {
    let vals = [1.5, 2.5, -3.0, 4.0];
    let gys = [2.0, -0.5, 4.0, 0.25];
    let mut power = Power::new(2);
    let mut square = Square::new();
    let p_out = power.call(&Variable::new(t(&[2, 2], &vals)));
    let s_out = square.call(&Variable::new(t(&[2, 2], &vals)));
    assert_eq!(p_out.data, s_out.data);
    let gy = t(&[2, 2], &gys);
    assert_eq!(power.backward(&gy).unwrap(), square.backward(&gy).unwrap());
}

#[test]
fn power_zero_exponent_gives_zero_gradient() {
    let mut power = Power::new(0);
    let output = power.call(&Variable::new(t(&[2], &[2.0, 4.0])));
    assert_eq!(output.data, t(&[2], &[1.0, 1.0]));
    let gy = t(&[2], &[1.0, 1.0]);
    assert_eq!(power.backward(&gy).unwrap(), t(&[2], &[0.0, 0.0]));
}

#[test]
fn backward_before_any_call_reports_empty() {
    let gy = t(&[2], &[1.0, 1.0]);
    let mut exp: Exp<F64> = Exp::new();
    assert_eq!(exp.backward(&gy), Err(BackwardError::Empty));
    let mut power: Power<F64> = Power::new(3);
    assert_eq!(power.backward(&gy), Err(BackwardError::Empty));
    let mut square: Square<F64> = Square::new();
    assert_eq!(square.backward(&gy), Err(BackwardError::Empty));
}

#[test]
fn backward_rejects_mismatched_gradient_shape() {
    let mut square = Square::new();
    let _ = square.call(&Variable::new(t(&[2, 2], &[1.0, 2.0, 3.0, 4.0])));
    let gy = t(&[4], &[1.0, 1.0, 1.0, 1.0]);
    assert_eq!(square.backward(&gy), Err(BackwardError::ShapeMismatch));
}

#[test]
fn second_call_overwrites_remembered_input() {
    let mut square = Square::new();
    let _ = square.call(&Variable::new(t(&[2, 2], &[1.0, 2.0, 3.0, 4.0])));
    let _ = square.call(&Variable::new(t(&[2, 2], &[5.0, 6.0, 7.0, 8.0])));
    let gy = t(&[2, 2], &[1.0, 1.0, 1.0, 1.0]);
    assert_eq!(square.backward(&gy).unwrap(), t(&[2, 2], &[10.0, 12.0, 14.0, 16.0]));
}

#[test]
fn call_remembers_the_input() {
    let mut exp = Exp::new();
    let input = Variable::new(t(&[3], &[1.0, 2.0, 3.0]));
    let _ = exp.call(&input);
    assert_eq!(exp.input, Some(t(&[3], &[1.0, 2.0, 3.0])));
    assert_eq!(exp.output, None);
}

#[test]
fn remember_output_stores_a_copy() {
    let mut exp = Exp::new();
    let output = Variable::new(t(&[1], &[2.5]));
    exp.remember_output(&output);
    assert_eq!(exp.output, Some(t(&[1], &[2.5])));
    assert_eq!(exp.input, None);
}

#[test]
fn variable_new_makes_a_leaf() {
    let v: Variable<Tensor<F64>, Exp<F64>> = Variable::new(t(&[2], &[1.0, 2.0]));
    assert_eq!(v.data, t(&[2], &[1.0, 2.0]));
    assert!(v.grad.is_none());
    assert!(v.creater.is_none());
}

#[test]
fn set_creater_records_the_creator() {
    let mut v: Variable<Tensor<F64>, Exp<F64>> = Variable::new(t(&[1], &[1.0]));
    v.set_creater(Exp::new());
    assert!(v.creater.is_some());
    assert_eq!(v.data, t(&[1], &[1.0]));
}

#[test]
fn call_leaves_the_output_without_creator() {
    let mut square = Square::new();
    let output = square.call(&Variable::new(t(&[1], &[3.0])));
    assert!(output.grad.is_none());
    assert!(output.creater.is_none());
}

#[test]
fn from_shape_vec_accepts_matching_sizes() {
    let tensor = t(&[2, 3], &[1.0, 2.0, 3.0, 4.0, 5.0, 6.0]);
    assert_eq!(tensor.shape, vec![2, 3]);
    assert_eq!(tensor.data.len(), 6);
}

#[test]
fn from_shape_vec_accepts_the_scalar_shape() {
    let data = vec![F64(7.0)];
    let tensor = Tensor::from_shape_vec(Vec::new(), data).unwrap();
    assert!(tensor.shape.is_empty());
    assert_eq!(tensor.data, vec![F64(7.0)]);
}

#[test]
fn from_shape_vec_accepts_an_empty_extent() {
    let tensor: Option<Tensor<F64>> = Tensor::from_shape_vec(vec![2, 0], Vec::new());
    assert!(tensor.is_some());
}

#[test]
fn from_shape_vec_rejects_mismatched_sizes() {
    let data: Vec<F64> = vec![F64(1.0), F64(2.0), F64(3.0)];
    assert!(Tensor::from_shape_vec(vec![2, 2], data).is_none());
    let more: Vec<F64> = vec![F64(1.0), F64(2.0)];
    assert!(Tensor::from_shape_vec(vec![2, 0], more).is_none());
}

#[test]
fn from_shape_vec_rejects_an_overflowing_shape() {
    let data: Vec<F64> = vec![F64(1.0), F64(2.0), F64(3.0), F64(4.0)];
    assert!(Tensor::from_shape_vec(vec![usize::MAX, 2], data).is_none());
}

#[test]
fn pow_usize_multiplies_repeatedly() {
    assert_eq!(pow_usize(&F64(2.0), 10), F64(1024.0));
    assert_eq!(pow_usize(&F64(3.0), 0), F64(1.0));
    assert_eq!(pow_usize(&F64(-2.0), 3), F64(-8.0));
}
